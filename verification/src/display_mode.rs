//! Preferred display mode of the installed application.

use vstd::prelude::*;

verus! {

/// Defines the developers' preferred display mode for the website.
/// Serialized under the wire key `display`.
#[derive(Debug, Clone, Copy, PartialEq, Eq, Structural)]
pub enum DisplayMode {
    /// All of the available display area is used and no user agent chrome is
    /// shown.
    FullScreen,
    /// The application looks and feels like a standalone application, with
    /// its own window and icon; navigation chrome is excluded.
    Standalone,
    /// Like a standalone application, but with a minimal set of UI elements
    /// for controlling navigation.
    MinimalUi,
    /// The application opens in a conventional browser tab or new window.
    /// This is the default.
    Browser,
}

/// The exact wire token each display mode serializes to.
pub open spec fn display_mode_token(m: DisplayMode) -> Seq<char> {
    match m {
        DisplayMode::FullScreen => seq!['f', 'u', 'l', 'l', '-', 's', 'c', 'r', 'e', 'e', 'n'],
        DisplayMode::Standalone => seq!['s', 't', 'a', 'n', 'd', 'a', 'l', 'o', 'n', 'e'],
        DisplayMode::MinimalUi => seq!['m', 'i', 'n', 'i', 'm', 'a', 'l', '-', 'u', 'i'],
        DisplayMode::Browser => seq!['b', 'r', 'o', 'w', 's', 'e', 'r'],
    }
}

/// The wire token of a display mode, as a string slice.
pub fn display_mode_str(m: DisplayMode) -> (r: &'static str)
    ensures
        r@ == display_mode_token(m),
{
    match m {
        DisplayMode::FullScreen => {
            proof {
                reveal_strlit("full-screen");
                assert("full-screen"@ =~= display_mode_token(m));
            }
            "full-screen"
        },
        DisplayMode::Standalone => {
            proof {
                reveal_strlit("standalone");
                assert("standalone"@ =~= display_mode_token(m));
            }
            "standalone"
        },
        DisplayMode::MinimalUi => {
            proof {
                reveal_strlit("minimal-ui");
                assert("minimal-ui"@ =~= display_mode_token(m));
            }
            "minimal-ui"
        },
        DisplayMode::Browser => {
            proof {
                reveal_strlit("browser");
                assert("browser"@ =~= display_mode_token(m));
            }
            "browser"
        },
    }
}

/// Every display-mode token is plain text: no quotes, escapes or whitespace.
pub proof fn lemma_display_mode_token_plain(m: DisplayMode)
    ensures
        crate::json::plain_text(display_mode_token(m)),
{
    let t = display_mode_token(m);
    assert forall|i: int| 0 <= i < t.len() implies crate::json::plain_char(t[i]) by {
        match m {
            DisplayMode::FullScreen => {},
            DisplayMode::Standalone => {},
            DisplayMode::MinimalUi => {},
            DisplayMode::Browser => {},
        }
    }
}

} // verus!
