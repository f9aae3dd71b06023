use std::path::PathBuf;
use toolchain_installer::InstallOptions;

#[test]
fn default_keeps_the_name_and_no_directory() {
    let opts = InstallOptions::default("tool");
    assert_eq!(opts.bin_name, "tool");
    assert!(opts.dest_dir.is_none());
}

#[test]
fn default_takes_an_empty_name() {
    let opts = InstallOptions::default("");
    assert_eq!(opts.bin_name, "");
    assert!(opts.dest_dir.is_none());
}

#[test]
fn a_directory_can_be_set_on_the_fields() {
    let mut opts = InstallOptions::default("tool");
    opts.dest_dir = Some(PathBuf::from("/opt/tools"));
    assert_eq!(opts.bin_name, "tool");
    assert_eq!(opts.dest_dir, Some(PathBuf::from("/opt/tools")));
}
