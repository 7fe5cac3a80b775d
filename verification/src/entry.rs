//! A single renderable report line: an icon, a label, and a value.

use vstd::prelude::*;
use crate::style::{display_width, emoji_or_fallback, measured_width};
use crate::text::{pad_to, push_padded, spaces, spaces_string};

verus! {

/// One line of the report: a short glyph, a label, and a value.
pub struct BannerEntry {
    /// The resolved icon column: the glyph itself where the terminal takes
    /// emoji, else a space run sized to keep the columns aligned.
    pub icon: String,
    /// The label of the line, drawn from a fixed vocabulary.
    pub title: String,
    /// The rendered value.
    pub value: String,
}

/// The width of the space run that stands in for a glyph on terminals without
/// emoji: the square of the glyph's display width, to keep alignment for
/// glyphs wider than one cell, and never empty.
pub open spec fn fallback_width(w: nat) -> nat {
    if w * w == 0 {
        1
    } else {
        w * w
    }
}

/// The icon column resolved from `emoji`: either the glyph itself or its
/// space-run fallback, depending on the terminal.
pub open spec fn resolved_icon(icon: Seq<char>, emoji: Seq<char>) -> bool {
    icon == emoji || icon == spaces(fallback_width(display_width(emoji)))
}

/// An entry with the given glyph, label and value, the glyph resolved for the
/// current terminal.
pub open spec fn entry_is(e: BannerEntry, emoji: Seq<char>, title: Seq<char>, value: Seq<char>) -> bool {
    &&& resolved_icon(e.icon@, emoji)
    &&& e.title@ == title
    &&& e.value@ == value
}

/// The rendered form of one entry: one leading space, the icon column padded
/// to three cells, the label padded to twenty-two cells, a vertical separator,
/// one space, then the value unescaped.
#[verifier::opaque]
pub open spec fn line_of(e: BannerEntry) -> Seq<char> {
    " "@ + pad_to(e.icon@, 3) + pad_to(e.title@, 22) + "\u{2502} "@ + e.value@
}

impl BannerEntry {
    /// Create a new banner entry from the given glyph, label and value.
    pub fn new(emoji: &str, title: &str, value: &str) -> (r: Self)
        ensures
            entry_is(r, emoji@, title@, value@),
    {
        let w = measured_width(emoji);
        let icon = if w <= 0xFFFF {
            proof {
                assert(w * w <= 0xFFFFusize * 0xFFFFusize) by (nonlinear_arith)
                    requires
                        w <= 0xFFFFusize,
                ;
            }
            let mut pad_len = w * w;
            if pad_len == 0 {
                pad_len = 1;
            }
            let pad = spaces_string(pad_len);
            emoji_or_fallback(emoji, pad.as_str())
        } else {
            // a quadratic space run this long cannot be materialized; the
            // glyph itself still satisfies the resolution contract
            emoji.to_owned()
        };
        BannerEntry { icon, title: title.to_owned(), value: value.to_owned() }
    }

    /// Render this entry as one report line.
    pub fn render_line(&self) -> (s: String)
        ensures
            s@ == line_of(*self),
    {
        let mut out = String::new();
        out.append(" ");
        proof {
            assert(Seq::<char>::empty() + " "@ =~= " "@);
        }
        push_padded(&mut out, self.icon.as_str(), 3);
        push_padded(&mut out, self.title.as_str(), 22);
        out.append("\u{2502} ");
        out.append(self.value.as_str());
        proof {
            reveal(line_of);
            assert(out@ =~= line_of(*self));
        }
        out
    }
}

} // verus!
