//! Turning the two display slots into the text of the label.

use vstd::prelude::*;
use crate::compose::{compose, composed};
use crate::config::LyricDisplayMode;
use crate::lyric::{LyricLine, owned};
use crate::text::{decimal, is_blank, lemma_trimmed_empty_iff_blank, push_decimal, trim, trimmed};

verus! {

/// The text to put on the label, before it is escaped for markup: one line,
/// or a primary line above a secondary one.
#[derive(Clone, Debug, PartialEq, Eq)]
pub struct LabelText {
    pub primary: String,
    /// The line below, where there is one to show.
    pub secondary: Option<String>,
}

/// A `LabelText` as plain sequences of characters.
pub struct LabelTextView {
    pub primary: Seq<char>,
    pub secondary: Option<Seq<char>>,
}

impl View for LabelText {
    type V = LabelTextView;

    open spec fn view(&self) -> LabelTextView {
        LabelTextView {
            primary: self.primary@,
            secondary: match self.secondary {
                Some(text) => Some(text@),
                None => None,
            },
        }
    }
}

/// The label for a primary and a secondary slot.
///
/// The primary text is the primary line's text without the white space
/// around it, and empty where there is no primary line. The secondary text
/// is the same of the secondary line, but a secondary line of which nothing
/// is left counts as missing.
pub open spec fn label_text(primary: Option<LyricLine>, secondary: Option<LyricLine>) -> LabelTextView {
    LabelTextView {
        primary: match primary {
            Some(line) => trimmed(line.text@),
            None => Seq::<char>::empty(),
        },
        secondary: match secondary {
            Some(line) => if trimmed(line.text@).len() > 0 {
                Some(trimmed(line.text@))
            } else {
                None
            },
            None => None,
        },
    }
}

/// The label that blanks the display: no primary and no secondary line.
pub open spec fn blank_label() -> LabelTextView {
    label_text(None, None)
}

/// Works out the label's text from the lines in the two slots.
pub fn set_lyric(primary: Option<&LyricLine>, secondary: Option<&LyricLine>) -> (label: LabelText)
    ensures
        label@ == label_text(owned(primary), owned(secondary)),
{
    let primary_text = match primary {
        Some(line) => trim(line.text.as_str()).to_owned(),
        None => String::new(),
    };
    let secondary_text = match secondary {
        Some(line) => {
            let text = trim(line.text.as_str());
            if text.is_empty() {
                None
            } else {
                Some(text.to_owned())
            }
        },
        None => None,
    };
    LabelText { primary: primary_text, secondary: secondary_text }
}

/// Fills the slots from the current lines as `mode` says and works out the
/// label's text.
pub fn set_lyric_with_mode(
    mode: LyricDisplayMode,
    translation: Option<&LyricLine>,
    origin: Option<&LyricLine>,
) -> (label: LabelText)
    ensures
        label@ == label_text(
            composed(mode, owned(origin), owned(translation)).0,
            composed(mode, owned(origin), owned(translation)).1,
        ),
{
    let (primary, secondary) = compose(mode, origin, translation);
    set_lyric(primary, secondary)
}

/// A secondary line that holds white space only counts as missing.
pub proof fn lemma_blank_secondary_is_absent(primary: Option<LyricLine>, secondary: LyricLine)
    requires
        is_blank(secondary.text@),
    ensures
        label_text(primary, Some(secondary)) == label_text(primary, None),
{
    lemma_trimmed_empty_iff_blank(secondary.text@);
}

/// The label has a secondary text exactly where there is a secondary line
/// that is not blank.
pub proof fn lemma_secondary_shown_iff_not_blank(primary: Option<LyricLine>, secondary: LyricLine)
    ensures
        label_text(primary, Some(secondary)).secondary is Some <==> !is_blank(secondary.text@),
{
    lemma_trimmed_empty_iff_blank(secondary.text@);
}

/// `body` at font size `size`, in points.
pub open spec fn span(size: nat, body: Seq<char>) -> Seq<char> {
    "<span size=\""@ + decimal(size) + "pt\">"@ + body + "</span>"@
}

/// The markup of a label. `primary` and `secondary` are the label's texts
/// after escaping.
///
/// A label of one line is that line as it is. A label of two lines has the
/// primary line at `primary_size` points, a line break, and the secondary
/// line at `secondary_size` points.
pub open spec fn markup(
    primary: Seq<char>,
    secondary: Option<Seq<char>>,
    primary_size: nat,
    secondary_size: nat,
) -> Seq<char> {
    match secondary {
        Some(below) => span(primary_size, primary) + "\n"@ + span(secondary_size, below),
        None => primary,
    }
}

/// The characters of an optional text.
pub open spec fn text_view(text: Option<&str>) -> Option<Seq<char>> {
    match text {
        Some(s) => Some(s@),
        None => None,
    }
}

fn push_span(out: &mut String, size: u32, body: &str)
    ensures
        final(out)@ == old(out)@ + span(size as nat, body@),
{
    out.append("<span size=\"");
    push_decimal(out, size);
    out.append("pt\">");
    out.append(body);
    out.append("</span>");
    assert(out@ =~= old(out)@ + span(size as nat, body@));
}

/// Assembles the label's markup from its escaped texts and the two font
/// sizes.
pub fn label_markup(
    primary: &str,
    secondary: Option<&str>,
    primary_size: u32,
    secondary_size: u32,
) -> (text: String)
    ensures
        text@ == markup(primary@, text_view(secondary), primary_size as nat, secondary_size as nat),
{
    match secondary {
        Some(below) => {
            let mut text = String::new();
            push_span(&mut text, primary_size, primary);
            text.append("\n");
            push_span(&mut text, secondary_size, below);
            assert(text@ =~= span(primary_size as nat, primary@) + "\n"@ + span(
                secondary_size as nat,
                below@,
            ));
            text
        },
        None => primary.to_owned(),
    }
}

} // verus!
