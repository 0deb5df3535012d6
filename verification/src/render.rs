//! What the screen needs to know of the text it shows: how many rows the
//! body takes once wrapped, and the hint under it.

use crate::input::InputMode;
use crate::text::chars_of;
use crate::text::push_char;
use vstd::prelude::*;

verus! {

/// What `Paragraph::line_count` of `ratatui` returns for `text` as a
/// paragraph in a bordered block, wrapped without trimming at `width`
/// columns: the rows that the paragraph needs, borders included.
pub uninterp spec fn paragraph_lines(text: Seq<char>, width: u16) -> usize;

/// The widest pane for which rows are counted.
///
/// While it wraps, `ratatui` keeps the widths of the line, the word and
/// the white space under way as 16-bit numbers and adds them up. It passes
/// over a symbol wider than the pane and breaks the line once the three
/// together reach the width, so none of its sums reaches four times the
/// width. Up to this width they all fit, with room to spare.
pub const MAX_WRAP_WIDTH: u16 = 8192;

/// Counts rows with `Paragraph::line_count` of `ratatui`, on a paragraph
/// made of `text` alone, in a bordered block and wrapped without trimming.
/// The count depends on the text and the width alone, so it is the one that
/// `paragraph_lines` names. Wider than `MAX_WRAP_WIDTH` the sums of widths
/// that the wrapping makes may pass what 16 bits hold.
#[verifier::external_body]
fn line_count(text: &str, width: u16) -> (lines: usize)
    requires
        width <= MAX_WRAP_WIDTH,
    ensures
        lines == paragraph_lines(text@, width),
{
    ratatui::widgets::Paragraph::new(text)
        .block(ratatui::widgets::Block::bordered())
        .wrap(ratatui::widgets::Wrap { trim: false })
        .line_count(width)
}

/// `c` as the body pane shows it: a space in place of a tab.
pub open spec fn shown(c: char) -> char {
    if c == '\t' {
        ' '
    } else {
        c
    }
}

/// `text` with a space in place of every tab.
pub open spec fn expand_tabs(text: Seq<char>) -> Seq<char> {
    Seq::new(text.len(), |i: int| shown(text[i]))
}

/// The body as the pane shows it: with a space in place of every tab.
pub fn expanded(body: &str) -> (text: String)
    ensures
        text@ == expand_tabs(body@),
{
    let chars = chars_of(body);
    let mut text = String::new();
    let mut i: usize = 0;
    while i < chars.len()
        invariant
            i <= chars.len(),
            chars@ == body@,
            text@ == expand_tabs(body@).take(i as int),
        decreases chars.len() - i,
    {
        let c: char = chars[i];
        push_char(
            &mut text,
            if c == '\t' {
                ' '
            } else {
                c
            },
        );
        i = i + 1;
        assert(text@ =~= expand_tabs(body@).take(i as int));
    }
    assert(expand_tabs(body@).take(i as int) =~= expand_tabs(body@));
    text
}

/// The number of rows that `body` takes in a pane `width` columns wide,
/// borders included. The pane must be no wider than `MAX_WRAP_WIDTH`.
pub fn body_lines(body: &str, width: u16) -> (lines: usize)
    requires
        width <= MAX_WRAP_WIDTH,
    ensures
        lines == paragraph_lines(expand_tabs(body@), width),
{
    let text = expanded(body);
    line_count(text.as_str(), width)
}

/// The hint under the body: how to get to the other mode.
pub open spec fn hint(mode: InputMode) -> Seq<char> {
    match mode {
        InputMode::Normal => " <SLASH> - Edit the address "@,
        InputMode::Editing => " <ENTER> - Request address | <ESC> - Focus the body "@,
    }
}

/// The hint that the screen shows in `mode`.
pub fn instructions(mode: InputMode) -> (text: &'static str)
    ensures
        text@ == hint(mode),
{
    match mode {
        InputMode::Normal => " <SLASH> - Edit the address ",
        InputMode::Editing => " <ENTER> - Request address | <ESC> - Focus the body ",
    }
}

} // verus!
