use std::path::PathBuf;
use toolchain_installer::hook::{hook_line, path_hook, path_hook_with};

#[test]
fn the_line_exports_the_directory_in_front_of_path() {
    assert_eq!(
        hook_line("/opt/bin"),
        "\n# added by toolchain installer\nexport PATH=\"/opt/bin:$PATH\"\n"
    );
}

#[test]
fn the_line_for_an_empty_text_keeps_its_frame() {
    assert_eq!(hook_line(""), "\n# added by toolchain installer\nexport PATH=\":$PATH\"\n");
}

#[test]
fn the_hook_goes_to_zshrc_in_the_home_directory() {
    let hook = path_hook_with(Some(PathBuf::from("/home/alice")), &PathBuf::from("/opt/bin"))
        .unwrap();
    assert_eq!(hook.file, PathBuf::from("/home/alice/.zshrc"));
    assert_eq!(hook.line, "\n# added by toolchain installer\nexport PATH=\"/opt/bin:$PATH\"\n");
}

#[test]
fn the_hook_shows_the_directory_as_it_is_written() {
    let hook = path_hook_with(
        Some(PathBuf::from("/home/alice/")),
        &PathBuf::from("/home/alice/.local/bin"),
    )
    .unwrap();
    assert_eq!(hook.file, PathBuf::from("/home/alice/.zshrc"));
    assert_eq!(
        hook.line,
        "\n# added by toolchain installer\nexport PATH=\"/home/alice/.local/bin:$PATH\"\n"
    );
}

#[test]
fn a_relative_directory_is_shown_as_given() {
    let hook = path_hook_with(Some(PathBuf::from("/root")), &PathBuf::from("bin dir")).unwrap();
    assert_eq!(hook.line, "\n# added by toolchain installer\nexport PATH=\"bin dir:$PATH\"\n");
}

#[test]
fn without_a_home_directory_there_is_no_hook() {
    assert!(path_hook_with(None, &PathBuf::from("/opt/bin")).is_none());
}

#[test]
fn the_hook_follows_the_home_directory_of_the_machine() {
    let hook = path_hook(&PathBuf::from("/opt/bin"));
    match dirs::home_dir() {
        Some(home) => {
            let hook = hook.unwrap();
            assert_eq!(hook.file, home.join(".zshrc"));
            assert_eq!(
                hook.line,
                "\n# added by toolchain installer\nexport PATH=\"/opt/bin:$PATH\"\n"
            );
        }
        None => assert!(hook.is_none()),
    }
}
