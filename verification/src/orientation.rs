//! Default screen orientation of the installed application.

use vstd::prelude::*;

verus! {

/// Defines the default orientation for all the website's top level browsing
/// contexts.
#[derive(Debug, Clone, Copy, PartialEq, Eq, Structural)]
pub enum Orientation {
    /// Any of the primary and secondary portrait and landscape orientations.
    Any,
    /// The orientation with the current orientation angle of zero.
    Natural,
    /// The screen width is greater than the screen height; both the primary
    /// and the secondary landscape orientation.
    Landscape,
    /// The first of the possible landscape orientations.
    LandscapePrimary,
    /// The second of the possible landscape orientations.
    LandscapeSecondary,
    /// The screen height is greater than the screen width; both the primary
    /// and the secondary portrait orientation.
    Portrait,
    /// The first of the possible portrait orientations.
    PortraitPrimary,
    /// The second of the possible portrait orientations.
    PortraitSecondary,
}

/// The exact wire token each orientation serializes to.
pub open spec fn orientation_token(o: Orientation) -> Seq<char> {
    match o {
        Orientation::Any => seq!['a', 'n', 'y'],
        Orientation::Natural => seq!['n', 'a', 't', 'u', 'r', 'a', 'l'],
        Orientation::Landscape => seq!['l', 'a', 'n', 'd', 's', 'c', 'a', 'p', 'e'],
        Orientation::LandscapePrimary => seq![
            'l', 'a', 'n', 'd', 's', 'c', 'a', 'p', 'e', '-', 'p', 'r', 'i', 'm', 'a', 'r', 'y',
        ],
        Orientation::LandscapeSecondary => seq![
            'l', 'a', 'n', 'd', 's', 'c', 'a', 'p', 'e', '-', 's', 'e', 'c', 'o', 'n', 'd', 'a',
            'r', 'y',
        ],
        Orientation::Portrait => seq!['p', 'o', 'r', 't', 'r', 'a', 'i', 't'],
        Orientation::PortraitPrimary => seq![
            'p', 'o', 'r', 't', 'r', 'a', 'i', 't', '-', 'p', 'r', 'i', 'm', 'a', 'r', 'y',
        ],
        Orientation::PortraitSecondary => seq![
            'p', 'o', 'r', 't', 'r', 'a', 'i', 't', '-', 's', 'e', 'c', 'o', 'n', 'd', 'a', 'r',
            'y',
        ],
    }
}

/// The wire token of an orientation, as a string slice.
pub fn orientation_str(o: Orientation) -> (r: &'static str)
    ensures
        r@ == orientation_token(o),
{
    match o {
        Orientation::Any => {
            proof {
                reveal_strlit("any");
                assert("any"@ =~= orientation_token(o));
            }
            "any"
        },
        Orientation::Natural => {
            proof {
                reveal_strlit("natural");
                assert("natural"@ =~= orientation_token(o));
            }
            "natural"
        },
        Orientation::Landscape => {
            proof {
                reveal_strlit("landscape");
                assert("landscape"@ =~= orientation_token(o));
            }
            "landscape"
        },
        Orientation::LandscapePrimary => {
            proof {
                reveal_strlit("landscape-primary");
                assert("landscape-primary"@ =~= orientation_token(o));
            }
            "landscape-primary"
        },
        Orientation::LandscapeSecondary => {
            proof {
                reveal_strlit("landscape-secondary");
                assert("landscape-secondary"@ =~= orientation_token(o));
            }
            "landscape-secondary"
        },
        Orientation::Portrait => {
            proof {
                reveal_strlit("portrait");
                assert("portrait"@ =~= orientation_token(o));
            }
            "portrait"
        },
        Orientation::PortraitPrimary => {
            proof {
                reveal_strlit("portrait-primary");
                assert("portrait-primary"@ =~= orientation_token(o));
            }
            "portrait-primary"
        },
        Orientation::PortraitSecondary => {
            proof {
                reveal_strlit("portrait-secondary");
                assert("portrait-secondary"@ =~= orientation_token(o));
            }
            "portrait-secondary"
        },
    }
}

/// Every orientation token is plain text: no quotes, escapes or whitespace.
pub proof fn lemma_orientation_token_plain(o: Orientation)
    ensures
        crate::json::plain_text(orientation_token(o)),
{
    let t = orientation_token(o);
    assert forall|i: int| 0 <= i < t.len() implies crate::json::plain_char(t[i]) by {
        match o {
            Orientation::Any => {},
            Orientation::Natural => {},
            Orientation::Landscape => {},
            Orientation::LandscapePrimary => {},
            Orientation::LandscapeSecondary => {},
            Orientation::Portrait => {},
            Orientation::PortraitPrimary => {},
            Orientation::PortraitSecondary => {},
        }
    }
}

} // verus!
