use std::path::PathBuf;
use toolchain_installer::error::missing_binary_message;
use toolchain_installer::InstallError;

#[test]
fn a_failed_build_has_its_message() {
    assert_eq!(InstallError::BuildFailed.message(), "cargo build failed");
}

#[test]
fn a_missing_binary_is_named_in_quotes() {
    let error = InstallError::BinaryMissing { path: PathBuf::from("target/release/tool") };
    assert_eq!(error.message(), "expected binary at \"target/release/tool\"");
}

#[test]
fn a_quote_in_the_path_is_escaped() {
    let error = InstallError::BinaryMissing { path: PathBuf::from("target/release/to\"ol") };
    assert_eq!(error.message(), "expected binary at \"target/release/to\\\"ol\"");
}

#[test]
fn the_message_agrees_with_the_debug_form() {
    let path = PathBuf::from("some dir/tool");
    let expected = format!("expected binary at {:?}", path);
    assert_eq!(InstallError::BinaryMissing { path }.message(), expected);
}

#[test]
fn the_missing_binary_message_puts_the_text_behind_the_words() {
    assert_eq!(missing_binary_message("\"x\""), "expected binary at \"x\"");
    assert_eq!(missing_binary_message(""), "expected binary at ");
}
