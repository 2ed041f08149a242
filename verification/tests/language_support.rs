//! Notes on the editor's language support, printed when the tests run.

use std::path::Path;

#[test]
fn document_indent_capture_behavior() {
    // This test documents what capture names do in indent queries

    println!("\n=== Zed Indent Query Capture Names ===\n");
    println!("Recognized captures:");
    println!("  @indent     - Increase indentation for child nodes");
    println!("  @_indent    - Same as @indent but suppresses unused warning");
    println!();
    println!("Unrecognized captures (will trigger warnings):");
    println!("  @dedent     - NOT recognized by Zed");
    println!("  @outdent    - NOT recognized by Zed");
    println!();
    println!("Workaround: Prefix unrecognized captures with '_' to suppress warnings");
    println!("  @_dedent    - Won't trigger warning (but also won't do anything)");
    println!();
    println!("Note: Zed may have limited indent query support compared to Neovim.");
    println!("See: https://zed.dev/docs/languages for Zed-specific documentation");
}

#[test]
fn optional_query_files_documented() {
    // This test documents which optional files we have
    let quarto_dir = Path::new("languages/quarto");

    let optional_files = [
        ("indents.scm", "Indentation rules"),
        ("folds.scm", "Code folding support"),
        ("outline.scm", "Document outline"),
        ("tags.scm", "Symbol navigation"),
        ("locals.scm", "Local scope support"),
        ("textobjects.scm", "Text object selection"),
    ];

    println!("\n📋 Optional language query files:");
    for (filename, description) in optional_files {
        let path = quarto_dir.join(filename);
        let status = if path.exists() { "✅" } else { "❌" };
        println!("  {} {} - {}", status, filename, description);
    }
}
