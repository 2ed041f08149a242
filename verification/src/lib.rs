//! Decision logic of the Quarto preview slash command of a Zed extension.
//!
//! The command checks that the Quarto command-line tool is installed, finds
//! the file to preview, insists on a `.qmd` file that exists, runs
//! `quarto preview` on it and reports how that went. Everything that touches
//! the machine is left to the caller: [`preview::PreviewState`] says what to
//! find out next, and [`preview::PreviewState::step`] takes the answer.
//!
//! - [`preview`]: the command as a state machine, and what holds of its runs.
//! - [`output`]: the text and section handed back to the editor.
//! - [`error`]: the failures and their messages.
//! - [`path`]: the `.qmd` test and the name a file is shown under.
//! - [`text`]: suffix and equality tests on UTF-8 strings.

pub mod error;
pub mod output;
pub mod path;
pub mod preview;
pub mod text;
