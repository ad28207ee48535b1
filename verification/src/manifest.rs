//! The remote update manifest: a small descriptor advertising the latest
//! available version, plus optional metadata that the transaction ignores.
//! It is fetched fresh each run and never persisted.

use vstd::prelude::*;

verus! {

/// Remote descriptor for the latest available release. Only `version`
/// matters to the update transaction; the other fields are metadata.
pub struct Manifest {
    pub name: Option<String>,
    pub version: String,
    pub date: Option<String>,
    pub author: Option<String>,
}

} // verus!
