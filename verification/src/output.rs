//! What a slash command hands back to the editor on success.

use crate::path::{after_last_slash, display_name, has_portable_file_name, is_display_name_of};
use vstd::prelude::*;
use vstd::string::StringExecFns;
use vstd::utf8::encode_utf8;

verus! {

/// A labelled stretch of the output text, given by byte offsets: `start`
/// is the first byte in it, `end` the first byte after it.
#[derive(Clone, Debug, PartialEq, Eq)]
pub struct OutputSection {
    pub start: u32,
    pub end: u32,
    pub label: String,
}

/// The text that a slash command produced and the sections it is shown in.
#[derive(Clone, Debug, PartialEq, Eq)]
pub struct CommandOutput {
    pub text: String,
    pub sections: Vec<OutputSection>,
}

/// An `OutputSection` as a mathematical value.
pub struct SectionView {
    pub start: u32,
    pub end: u32,
    pub label: Seq<char>,
}

/// A `CommandOutput` as a mathematical value.
pub struct OutputView {
    pub text: Seq<char>,
    pub sections: Seq<SectionView>,
}

impl View for OutputSection {
    type V = SectionView;

    open spec fn view(&self) -> SectionView {
        SectionView { start: self.start, end: self.end, label: self.label@ }
    }
}

impl View for CommandOutput {
    type V = OutputView;

    open spec fn view(&self) -> OutputView {
        OutputView {
            text: self.text@,
            sections: Seq::new(self.sections@.len(), |i: int| self.sections@[i]@),
        }
    }
}

/// The words that open the message of a preview that started.
pub open spec fn success_prefix() -> Seq<char> {
    "✓ Opening preview for "@
}

/// The label of the one section of a preview's output.
pub open spec fn section_label() -> Seq<char> {
    "Quarto Preview"@
}

/// The length of `text` in UTF-8 bytes, as a 32-bit offset: lengths that do
/// not fit are cut down to their low bits.
pub open spec fn byte_offset(text: Seq<char>) -> u32 {
    (encode_utf8(text).len() as usize) as u32
}

/// The output of a preview that started, for a file shown as `name`: a
/// message that ends in the name, in one section that spans all of it.
pub open spec fn preview_output(name: Seq<char>) -> OutputView {
    OutputView {
        text: success_prefix() + name,
        sections: seq![
            SectionView {
                start: 0,
                end: byte_offset(success_prefix() + name),
                label: section_label(),
            },
        ],
    }
}

/// The name that the message of `out` ends in.
pub open spec fn shown_name(out: OutputView) -> Seq<char> {
    out.text.skip(success_prefix().len() as int)
}

/// True when `out` is the output of a preview that started, whatever the
/// name it shows.
pub open spec fn is_preview_output(out: OutputView) -> bool {
    out == preview_output(shown_name(out))
}

/// True when `out` is the output of a preview of the file at `path`, shown
/// under a name that the path may be shown under.
pub open spec fn announces(out: OutputView, path: Seq<char>) -> bool {
    &&& is_preview_output(out)
    &&& is_display_name_of(shown_name(out), path)
}

/// A portable path whose last segment can name a file is announced in one
/// way only: under that segment.
pub proof fn lemma_portable_path_has_one_output(out: OutputView, path: Seq<char>)
    requires
        announces(out, path),
        has_portable_file_name(path),
    ensures
        out == preview_output(after_last_slash(path)),
{
}

/// The output for a name shows that name.
pub proof fn lemma_output_shows_name(name: Seq<char>)
    ensures
        shown_name(preview_output(name)) == name,
        is_preview_output(preview_output(name)),
{
    assert(shown_name(preview_output(name)) =~= name);
}

/// The one section of a preview's output starts at the first byte of the
/// text and, as long as the text is shorter than 4 GiB, ends after its last.
pub proof fn lemma_section_spans_text(out: OutputView)
    requires
        is_preview_output(out),
    ensures
        out.sections.len() == 1,
        out.sections[0].start == 0,
        encode_utf8(out.text).len() <= u32::MAX ==> out.sections[0].end == encode_utf8(
            out.text,
        ).len(),
{
}

/// Calls the conversion of `zed_extension_api` from a `std::ops::Range<usize>`
/// to its own `Range`, on the half-open range from `start` to `end`, and
/// hands back the two bounds of the result. Trusted: the conversion casts
/// each bound to `u32`.
#[verifier::external_body]
fn host_range(start: usize, end: usize) -> (bounds: (u32, u32))
    ensures
        bounds.0 == start as u32,
        bounds.1 == end as u32,
{
    let range = zed_extension_api::Range::from(start..end);
    (range.start, range.end)
}

/// The message of a preview that started, for a file shown as `name`.
pub fn success_message(name: &str) -> (text: String)
    ensures
        text@ == success_prefix() + name@,
{
    "✓ Opening preview for ".to_owned().concat(name)
}

/// The output of a preview that started, for a file shown as `name`.
pub fn output_for_name(name: &str) -> (out: CommandOutput)
    ensures
        out@ == preview_output(name@),
{
    let text = success_message(name);
    let bounds = host_range(0, text.as_str().len());
    let section = OutputSection {
        start: bounds.0,
        end: bounds.1,
        label: "Quarto Preview".to_owned(),
    };
    let mut sections: Vec<OutputSection> = Vec::new();
    sections.push(section);
    let out = CommandOutput { text, sections };
    proof {
        assert(out@.sections =~= preview_output(name@).sections);
    }
    out
}

/// The output of a preview that started, for the file at `path`: that for
/// the name the path is shown under.
pub fn output_for_path(path: &str) -> (out: CommandOutput)
    ensures
        announces(out@, path@),
        has_portable_file_name(path@) ==> out@ == preview_output(after_last_slash(path@)),
{
    let name = display_name(path);
    let out = output_for_name(name);
    proof {
        lemma_output_shows_name(name@);
    }
    out
}

} // verus!
