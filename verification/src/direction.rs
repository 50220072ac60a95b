//! Base text direction of the manifest's textual members.

use vstd::prelude::*;

verus! {

/// Specifies the primary text direction for the `name`, `short_name`, and
/// `description` members. Serialized under the wire key `dir`.
#[derive(Debug, Clone, Copy, PartialEq, Eq, Structural)]
pub enum Direction {
    /// Left-to-right text.
    Ltr,
    /// Right-to-left text.
    Rtl,
    /// Let the user agent guess the direction of the text.
    Auto,
}

/// The exact wire token each direction serializes to.
pub open spec fn direction_token(d: Direction) -> Seq<char> {
    match d {
        Direction::Ltr => seq!['l', 't', 'r'],
        Direction::Rtl => seq!['r', 't', 'l'],
        Direction::Auto => seq!['a', 'u', 't', 'o'],
    }
}

/// The wire token of a direction, as a string slice.
pub fn direction_str(d: Direction) -> (r: &'static str)
    ensures
        r@ == direction_token(d),
{
    match d {
        Direction::Ltr => {
            proof {
                reveal_strlit("ltr");
                assert("ltr"@ =~= direction_token(d));
            }
            "ltr"
        },
        Direction::Rtl => {
            proof {
                reveal_strlit("rtl");
                assert("rtl"@ =~= direction_token(d));
            }
            "rtl"
        },
        Direction::Auto => {
            proof {
                reveal_strlit("auto");
                assert("auto"@ =~= direction_token(d));
            }
            "auto"
        },
    }
}

/// Every direction token is plain text: no quotes, escapes or whitespace.
pub proof fn lemma_direction_token_plain(d: Direction)
    ensures
        crate::json::plain_text(direction_token(d)),
{
    let t = direction_token(d);
    assert forall|i: int| 0 <= i < t.len() implies crate::json::plain_char(t[i]) by {
        match d {
            Direction::Ltr => {},
            Direction::Rtl => {},
            Direction::Auto => {},
        }
    }
}

} // verus!
