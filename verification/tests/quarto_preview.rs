//! The checks and messages of the preview command.

use zed_quarto::error::PreviewError;
use zed_quarto::output::success_message;
use zed_quarto::path::{extract_filename, is_qmd_file};

#[test]
fn test_qmd_file_extension_validation() {
    // Valid .qmd files
    assert!(is_qmd_file("document.qmd"));
    assert!(is_qmd_file("path/to/document.qmd"));
    assert!(is_qmd_file("/absolute/path/to/document.qmd"));

    // Invalid files
    assert!(!is_qmd_file("document.md"));
    assert!(!is_qmd_file("document.txt"));
    assert!(!is_qmd_file("document"));
    assert!(!is_qmd_file("document.qmd.txt"));
}

#[test]
fn test_error_messages_are_helpful() {
    let cli_not_found = PreviewError::CliNotFound.message();
    assert_eq!(
        cli_not_found,
        "Quarto CLI not found. Install from https://quarto.org/docs/get-started/"
    );
    assert!(cli_not_found.contains("https://"));
    assert!(cli_not_found.contains("Install"));

    let wrong_extension = PreviewError::NotQmd.message();
    assert_eq!(wrong_extension, "Preview only works with .qmd files");
    assert!(wrong_extension.contains(".qmd"));

    let no_file = PreviewError::NoFile.message();
    assert_eq!(
        no_file,
        "No file to preview. Please specify a file path or open a Quarto document."
    );
    assert!(no_file.contains("specify"));
}

#[test]
fn test_success_message_format() {
    let filename = "example.qmd";
    let message = success_message(filename);
    assert_eq!(message, format!("✓ Opening preview for {}", filename));
    assert!(message.starts_with("✓"));
    assert!(message.contains("preview"));
    assert!(message.contains(filename));
}

#[test]
fn test_filename_extraction() {
    assert_eq!(
        extract_filename("/path/to/document.qmd"),
        Some("document.qmd")
    );
    assert_eq!(extract_filename("document.qmd"), Some("document.qmd"));
    assert_eq!(
        extract_filename("/absolute/path/file.qmd"),
        Some("file.qmd")
    );
}
