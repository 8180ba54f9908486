//! Labels as a device button shows them.

use vstd::prelude::*;
use vstd::string::is_ascii_spec_bytes;

verus! {

/// A label of more characters than this is shortened.
pub const MAX_LABEL_CHARS: usize = 35;

/// The characters that a shortened label keeps from the start.
pub const HEAD_CHARS: usize = 20;

/// The characters that a shortened label keeps from the end.
pub const TAIL_CHARS: usize = 15;

/// What stands for the characters that were left out.
pub open spec fn ellipsis() -> Seq<char> {
    seq!['.', '.', '.']
}

/// A label of at most 35 characters as it is; of a longer one the first 20
/// characters, three dots and the last 15 characters.
pub open spec fn shortened(label: Seq<char>) -> Seq<char> {
    if label.len() > MAX_LABEL_CHARS {
        label.subrange(0, HEAD_CHARS as int) + ellipsis() + label.subrange(
            label.len() - TAIL_CHARS,
            label.len() as int,
        )
    } else {
        label
    }
}

/// Puts three dots between the kept start and the kept end of a label.
fn join_with_ellipsis(head: &str, tail: &str) -> (joined: String)
    ensures
        joined@ == head@ + ellipsis() + tail@,
{
    let mut joined = String::from_str(head);
    joined.append("...");
    joined.append(tail);
    proof {
        reveal_strlit("...");
        assert("..."@ =~= ellipsis());
    }
    joined
}

/// The label as a button of fixed width shows it. Characters are counted,
/// not bytes, so a label is never cut inside a character.
pub fn get_shortened_label(label: &String) -> (short: String)
    ensures
        short@ == shortened(label@),
{
    let text = label.as_str();
    if text.is_ascii() {
        proof {
            is_ascii_spec_bytes(text);
        }
        let len = text.as_bytes().len();
        if len > MAX_LABEL_CHARS {
            join_with_ellipsis(
                text.substring_ascii(0, HEAD_CHARS),
                text.substring_ascii(len - TAIL_CHARS, len),
            )
        } else {
            label.clone()
        }
    } else {
        let len = text.unicode_len();
        if len > MAX_LABEL_CHARS {
            join_with_ellipsis(
                text.substring_char(0, HEAD_CHARS),
                text.substring_char(len - TAIL_CHARS, len),
            )
        } else {
            label.clone()
        }
    }
}

} // verus!
