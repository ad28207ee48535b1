use dg_edge_updater::UpdateError;
use dg_edge_updater::artifact::TargetArch;
use dg_edge_updater::artifact::get_download_url;
use dg_edge_updater::artifact::map_arch;

#[test]
fn x86_64_maps_to_amd64() {
    assert_eq!(map_arch("x86_64"), Ok(TargetArch::Amd64));
    assert_eq!(
        get_download_url("1.2.3", "x86_64"),
        Ok("https://os.druid.garden/1.2.3/amd64/druid-garden-os.app".to_string())
    );
}

#[test]
fn aarch64_maps_to_itself() {
    assert_eq!(map_arch("aarch64"), Ok(TargetArch::Aarch64));
    assert_eq!(
        get_download_url("2.0.1", "aarch64"),
        Ok("https://os.druid.garden/2.0.1/aarch64/druid-garden-os.app".to_string())
    );
}

#[test]
fn other_architectures_are_refused() {
    assert_eq!(map_arch("riscv64"), Err(UpdateError::UnsupportedPlatform));
    assert_eq!(map_arch("arm"), Err(UpdateError::UnsupportedPlatform));
    assert_eq!(map_arch(""), Err(UpdateError::UnsupportedPlatform));
    assert_eq!(get_download_url("1.2.3", "mips"), Err(UpdateError::UnsupportedPlatform));
}
