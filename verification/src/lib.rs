//! Typed builder for W3C Web App Manifest documents.
//!
//! A manifest is assembled with [`Manifest::builder`] and its fluent setters,
//! then rendered to a JSON string with [`Manifest::build`] (compact) or
//! [`Manifest::pretty`] (indented). The full wire format — key order, key
//! renames, omission of unset fields, and string escaping — is pinned down by
//! the spec functions of the crate, and the rendering code is verified
//! against them.

use vstd::prelude::*;
use vstd::string::StringExecFns;

pub mod direction;
pub mod display_mode;
pub mod icon;
pub mod json;
pub mod laws;
pub mod media_type;
pub mod orientation;
pub mod related;
pub mod whitespace;
pub mod wire;

pub use crate::direction::Direction;
pub use crate::direction::direction_token;
pub use crate::display_mode::DisplayMode;
pub use crate::display_mode::display_mode_token;
pub use crate::icon::Icon;
pub use crate::icon::IconView;
pub use crate::media_type::ext_of;
pub use crate::media_type::mime_of;
pub use crate::orientation::Orientation;
pub use crate::orientation::orientation_token;
pub use crate::related::Related;
pub use crate::related::RelatedView;
pub use crate::wire::JsonField;
pub use crate::wire::ManifestView;
pub use crate::wire::manifest_json;
pub use crate::wire::manifest_json_pretty;
pub use crate::wire::manifest_members;
pub use crate::laws::lemma_appends_are_additive;
pub use crate::laws::lemma_collections_on_wire;
pub use crate::laws::lemma_direction_on_wire;
pub use crate::laws::lemma_display_mode_on_wire;
pub use crate::laws::lemma_member_on_wire;
pub use crate::laws::lemma_member_count;
pub use crate::laws::lemma_orientation_on_wire;
pub use crate::laws::lemma_scalar_setters_last_write_wins;
pub use crate::laws::lemma_unset_scalars_omitted;
pub use crate::laws::lemma_icon_type_on_wire;
pub use crate::laws::lemma_member_keys_form;
pub use crate::laws::member_keys;
pub use crate::laws::opt_key;
pub use crate::whitespace::ScanMode;
pub use crate::whitespace::lemma_compact_free_of_layout_whitespace;
pub use crate::whitespace::lemma_compact_has_no_newline;
pub use crate::whitespace::newline_free;
pub use crate::whitespace::lemma_pretty_has_line_breaks;
pub use crate::whitespace::lemma_pretty_strips_to_compact;
pub use crate::whitespace::lemma_strip_normalizes;
pub use crate::whitespace::scan_mode;
pub use crate::whitespace::scan_step;
pub use crate::whitespace::strip_ws;
pub use crate::whitespace::strips_to;

use crate::direction::direction_str;
use crate::direction::lemma_direction_token_plain;
use crate::display_mode::display_mode_str;
use crate::display_mode::lemma_display_mode_token_plain;
use crate::json::bool_token;
use crate::json::lemma_plain_unescaped;
use crate::json::push_char;
use crate::json::push_json_string;
use crate::json::push_key;
use crate::json::push_line_break;
use crate::orientation::lemma_orientation_token_plain;
use crate::orientation::orientation_str;
use crate::wire::direction_member;
use crate::wire::display_member;
use crate::wire::lemma_manifest_rendered_parts;
use crate::wire::lemma_tail_concat;
use crate::wire::lemma_tail_single;
use crate::wire::manifest_rendered;
use crate::wire::members_tail_rendered;
use crate::wire::opt_text_member;
use crate::wire::orientation_member;
use crate::wire::prefer_member;
use crate::wire::optional_members_back;
use crate::wire::optional_members_front;
use crate::wire::push_icons;
use crate::wire::push_related_list;
use crate::wire::push_sep;
use crate::wire::push_text_member_sep;

verus! {

/// The media type under which a `.webmanifest` document is served.
pub const MIME_TYPE_STR: &'static str = "application/manifest+json";

/// Error surfaced by the finalizers. The verified encoder is total, so the
/// finalizers never actually produce it; the arm exists so that callers keep
/// handling a `Result`, as JSON encoding is fallible in general.
#[derive(Debug, Clone, Copy, PartialEq, Eq, Structural)]
pub enum BuildError {
    /// The document could not be encoded.
    Encoding,
}

/// The view of an optional owned string.
pub open spec fn opt_string_view(o: Option<String>) -> Option<Seq<char>> {
    match o {
        Option::None => Option::None,
        Option::Some(s) => Option::Some(s@),
    }
}

/// The view a fresh builder starts from: only `name` set, both collections
/// empty.
pub open spec fn empty_manifest(name: Seq<char>) -> ManifestView {
    ManifestView {
        name: name,
        short_name: Option::None,
        start_url: Option::None,
        display_mode: Option::None,
        background_color: Option::None,
        description: Option::None,
        direction: Option::None,
        orientation: Option::None,
        lang: Option::None,
        scope: Option::None,
        theme_color: Option::None,
        prefer_related_applications: Option::None,
        icons: Seq::empty(),
        related_applications: Seq::empty(),
    }
}

/// The view after setting `short_name`.
pub open spec fn with_short_name(m: ManifestView, v: Seq<char>) -> ManifestView {
    ManifestView { short_name: Option::Some(v), ..m }
}

/// The view after setting `start_url`.
pub open spec fn with_start_url(m: ManifestView, v: Seq<char>) -> ManifestView {
    ManifestView { start_url: Option::Some(v), ..m }
}

/// The view after setting the display mode.
pub open spec fn with_display_mode(m: ManifestView, v: DisplayMode) -> ManifestView {
    ManifestView { display_mode: Option::Some(v), ..m }
}

/// The view after setting `background_color`.
pub open spec fn with_bg_color(m: ManifestView, v: Seq<char>) -> ManifestView {
    ManifestView { background_color: Option::Some(v), ..m }
}

/// The view after setting `description`.
pub open spec fn with_description(m: ManifestView, v: Seq<char>) -> ManifestView {
    ManifestView { description: Option::Some(v), ..m }
}

/// The view after setting the text direction.
pub open spec fn with_direction(m: ManifestView, v: Direction) -> ManifestView {
    ManifestView { direction: Option::Some(v), ..m }
}

/// The view after setting the orientation.
pub open spec fn with_orientation(m: ManifestView, v: Orientation) -> ManifestView {
    ManifestView { orientation: Option::Some(v), ..m }
}

/// The view after setting `lang`.
pub open spec fn with_lang(m: ManifestView, v: Seq<char>) -> ManifestView {
    ManifestView { lang: Option::Some(v), ..m }
}

/// The view after setting `scope`.
pub open spec fn with_scope(m: ManifestView, v: Seq<char>) -> ManifestView {
    ManifestView { scope: Option::Some(v), ..m }
}

/// The view after setting `theme_color`.
pub open spec fn with_theme_color(m: ManifestView, v: Seq<char>) -> ManifestView {
    ManifestView { theme_color: Option::Some(v), ..m }
}

/// The view after setting `prefer_related_applications`.
pub open spec fn with_prefer_related_applications(m: ManifestView, v: bool) -> ManifestView {
    ManifestView { prefer_related_applications: Option::Some(v), ..m }
}

/// The view after appending one icon.
pub open spec fn with_icon(m: ManifestView, i: IconView) -> ManifestView {
    ManifestView { icons: m.icons.push(i), ..m }
}

/// The view after appending one related application.
pub open spec fn with_related(m: ManifestView, r: RelatedView) -> ManifestView {
    ManifestView { related_applications: m.related_applications.push(r), ..m }
}

/// A web app manifest under construction: a fluent builder whose setters
/// consume and return the value, finalized by [`Manifest::build`] or
/// [`Manifest::pretty`].
#[derive(Debug)]
pub struct Manifest {
    name: String,
    short_name: Option<String>,
    start_url: Option<String>,
    display_mode: Option<DisplayMode>,
    background_color: Option<String>,
    description: Option<String>,
    direction: Option<Direction>,
    orientation: Option<Orientation>,
    lang: Option<String>,
    scope: Option<String>,
    theme_color: Option<String>,
    prefer_related_applications: Option<bool>,
    icons: Vec<Icon>,
    related_applications: Vec<Related>,
}

impl View for Manifest {
    type V = ManifestView;

    open(crate) spec fn view(&self) -> ManifestView {
        ManifestView {
            name: self.name@,
            short_name: opt_string_view(self.short_name),
            start_url: opt_string_view(self.start_url),
            display_mode: self.display_mode,
            background_color: opt_string_view(self.background_color),
            description: opt_string_view(self.description),
            direction: self.direction,
            orientation: self.orientation,
            lang: opt_string_view(self.lang),
            scope: opt_string_view(self.scope),
            theme_color: opt_string_view(self.theme_color),
            prefer_related_applications: self.prefer_related_applications,
            icons: self.icons@.map_values(|i: Icon| i@),
            related_applications: self.related_applications@.map_values(|r: Related| r@),
        }
    }
}

impl Manifest {
    /// Create a new manifest with the given name; every optional attribute is
    /// unset and both collections are empty.
    #[must_use]
    pub fn builder(name: String) -> (r: Self)
        ensures
            r@ == empty_manifest(name@),
    {
        let r = Manifest {
            name,
            short_name: Option::None,
            start_url: Option::None,
            display_mode: Option::None,
            background_color: Option::None,
            description: Option::None,
            direction: Option::None,
            orientation: Option::None,
            lang: Option::None,
            scope: Option::None,
            theme_color: Option::None,
            prefer_related_applications: Option::None,
            icons: Vec::new(),
            related_applications: Vec::new(),
        };
        proof {
            assert(r@ =~= empty_manifest(r.name@));
        }
        r
    }

    /// Set the `short_name` value. The manifest specification intends it for
    /// places where space is scarce and recommends at most 12 code units; the
    /// value is stored verbatim.
    #[must_use]
    pub fn short_name(self, name: String) -> (r: Self)
        ensures
            r@ == with_short_name(self@, name@),
    {
        let ghost v = name@;
        let r = Manifest { short_name: Option::Some(name), ..self };
        proof {
            assert(r@ =~= with_short_name(self@, v));
        }
        r
    }

    /// Set the `start_url` value: the URL loaded when the application starts.
    #[must_use]
    pub fn start_url(self, url: String) -> (r: Self)
        ensures
            r@ == with_start_url(self@, url@),
    {
        let ghost v = url@;
        let r = Manifest { start_url: Option::Some(url), ..self };
        proof {
            assert(r@ =~= with_start_url(self@, v));
        }
        r
    }

    /// Set the display mode, serialized under the wire key `display`.
    #[must_use]
    pub fn display_mode(self, mode: DisplayMode) -> (r: Self)
        ensures
            r@ == with_display_mode(self@, mode),
    {
        let r = Manifest { display_mode: Option::Some(mode), ..self };
        proof {
            assert(r@ =~= with_display_mode(self@, mode));
        }
        r
    }

    /// Set the `background_color` value, stored verbatim.
    #[must_use]
    pub fn bg_color(self, color: String) -> (r: Self)
        ensures
            r@ == with_bg_color(self@, color@),
    {
        let ghost v = color@;
        let r = Manifest { background_color: Option::Some(color), ..self };
        proof {
            assert(r@ =~= with_bg_color(self@, v));
        }
        r
    }

    /// Set the `theme_color` value, stored verbatim.
    #[must_use]
    pub fn theme_color(self, color: String) -> (r: Self)
        ensures
            r@ == with_theme_color(self@, color@),
    {
        let ghost v = color@;
        let r = Manifest { theme_color: Option::Some(color), ..self };
        proof {
            assert(r@ =~= with_theme_color(self@, v));
        }
        r
    }

    /// Set the `description` value, stored verbatim.
    #[must_use]
    pub fn description(self, desc: String) -> (r: Self)
        ensures
            r@ == with_description(self@, desc@),
    {
        let ghost v = desc@;
        let r = Manifest { description: Option::Some(desc), ..self };
        proof {
            assert(r@ =~= with_description(self@, v));
        }
        r
    }

    /// Set the `lang` value: a single BCP-47 language tag, stored verbatim.
    #[must_use]
    pub fn lang(self, lang: String) -> (r: Self)
        ensures
            r@ == with_lang(self@, lang@),
    {
        let ghost v = lang@;
        let r = Manifest { lang: Option::Some(lang), ..self };
        proof {
            assert(r@ =~= with_lang(self@, v));
        }
        r
    }

    /// Set the orientation value.
    #[must_use]
    pub fn orientation(self, orientation: Orientation) -> (r: Self)
        ensures
            r@ == with_orientation(self@, orientation),
    {
        let r = Manifest { orientation: Option::Some(orientation), ..self };
        proof {
            assert(r@ =~= with_orientation(self@, orientation));
        }
        r
    }

    /// Set the text direction, serialized under the wire key `dir`.
    #[must_use]
    pub fn direction(self, dir: Direction) -> (r: Self)
        ensures
            r@ == with_direction(self@, dir),
    {
        let r = Manifest { direction: Option::Some(dir), ..self };
        proof {
            assert(r@ =~= with_direction(self@, dir));
        }
        r
    }

    /// Set the `prefer_related_applications` value: a hint that the related
    /// native applications should be preferred over the website.
    #[must_use]
    pub fn prefer_related_applications(self, prefer: bool) -> (r: Self)
        ensures
            r@ == with_prefer_related_applications(self@, prefer),
    {
        let r = Manifest { prefer_related_applications: Option::Some(prefer), ..self };
        proof {
            assert(r@ =~= with_prefer_related_applications(self@, prefer));
        }
        r
    }

    /// Set the `scope` value: the navigation scope of the website's context.
    #[must_use]
    pub fn scope(self, scope: String) -> (r: Self)
        ensures
            r@ == with_scope(self@, scope@),
    {
        let ghost v = scope@;
        let r = Manifest { scope: Option::Some(scope), ..self };
        proof {
            assert(r@ =~= with_scope(self@, v));
        }
        r
    }

    /// Append a copy of an `Icon` to the `icons` collection; earlier icons
    /// keep their places.
    #[must_use]
    pub fn icon(self, icon: &Icon) -> (r: Self)
        ensures
            r@ == with_icon(self@, icon@),
    {
        let mut m = self;
        m.icons.push(icon.clone());
        proof {
            assert(m.icons@.map_values(|i: Icon| i@) =~= self.icons@.map_values(|i: Icon| i@).push(
                icon@,
            ));
            assert(m@ =~= with_icon(self@, icon@));
        }
        m
    }

    /// Append a copy of a `Related` application to the `related_applications`
    /// collection; earlier entries keep their places.
    #[must_use]
    pub fn related(self, related: &Related) -> (r: Self)
        ensures
            r@ == with_related(self@, related@),
    {
        let mut m = self;
        m.related_applications.push(related.clone());
        proof {
            assert(m.related_applications@.map_values(|r: Related| r@)
                =~= self.related_applications@.map_values(|r: Related| r@).push(related@));
            assert(m@ =~= with_related(self@, related@));
        }
        m
    }

    /// Finalize the builder into a compact JSON string: the exact document
    /// [`manifest_json`] describes, with no whitespace between tokens.
    #[must_use]
    pub fn build(self) -> (r: Result<String, BuildError>)
        ensures
            r matches Ok(s) && s@ == manifest_json(self@),
    {
        Result::Ok(self.render(false))
    }

    /// Finalize the builder into an indented JSON string: the exact document
    /// [`manifest_json_pretty`] describes, with a line break after every
    /// member and element and two spaces of indentation per level.
    #[must_use]
    pub fn pretty(self) -> (r: Result<String, BuildError>)
        ensures
            r matches Ok(s) && s@ == manifest_json_pretty(self@),
    {
        Result::Ok(self.render(true))
    }

    /// Emit the first half of the optional scalar members, in order, each
    /// preceded by the member separator; an unset attribute emits nothing.
    fn push_optional_members_front(&self, out: &mut String, pretty: bool)
        ensures
            final(out)@ == old(out)@ + members_tail_rendered(optional_members_front(self@), pretty),
    {
        push_opt_text_group(out, "short_name", &self.short_name, pretty);
        push_opt_text_group(out, "start_url", &self.start_url, pretty);
        push_display_group(out, self.display_mode, pretty);
        push_opt_text_group(out, "background_color", &self.background_color, pretty);
        push_opt_text_group(out, "description", &self.description, pretty);
        proof {
            let m = self@;
            let g1 = opt_text_member("short_name"@, m.short_name);
            let g2 = opt_text_member("start_url"@, m.start_url);
            let g3 = display_member(m.display_mode);
            let g4 = opt_text_member("background_color"@, m.background_color);
            let g5 = opt_text_member("description"@, m.description);
            lemma_tail_concat(g1, g2, pretty);
            lemma_tail_concat(g1 + g2, g3, pretty);
            lemma_tail_concat(g1 + g2 + g3, g4, pretty);
            lemma_tail_concat(g1 + g2 + g3 + g4, g5, pretty);
            assert(out@ =~= old(out)@ + members_tail_rendered(optional_members_front(m), pretty));
        }
    }

    /// Emit the second half of the optional scalar members, in order, each
    /// preceded by the member separator; an unset attribute emits nothing.
    fn push_optional_members_back(&self, out: &mut String, pretty: bool)
        ensures
            final(out)@ == old(out)@ + members_tail_rendered(optional_members_back(self@), pretty),
    {
        push_direction_group(out, self.direction, pretty);
        push_orientation_group(out, self.orientation, pretty);
        push_opt_text_group(out, "lang", &self.lang, pretty);
        push_opt_text_group(out, "scope", &self.scope, pretty);
        push_opt_text_group(out, "theme_color", &self.theme_color, pretty);
        push_prefer_group(out, self.prefer_related_applications, pretty);
        proof {
            let m = self@;
            let g1 = direction_member(m.direction);
            let g2 = orientation_member(m.orientation);
            let g3 = opt_text_member("lang"@, m.lang);
            let g4 = opt_text_member("scope"@, m.scope);
            let g5 = opt_text_member("theme_color"@, m.theme_color);
            let g6 = prefer_member(m.prefer_related_applications);
            lemma_tail_concat(g1, g2, pretty);
            lemma_tail_concat(g1 + g2, g3, pretty);
            lemma_tail_concat(g1 + g2 + g3, g4, pretty);
            lemma_tail_concat(g1 + g2 + g3 + g4, g5, pretty);
            lemma_tail_concat(g1 + g2 + g3 + g4 + g5, g6, pretty);
            assert(out@ =~= old(out)@ + members_tail_rendered(optional_members_back(m), pretty));
        }
    }

    /// Render the document, compact or indented: the leading brace and the
    /// `name` member, the optional scalar members, the two arrays, and the
    /// closing brace.
    #[verifier::rlimit(100)]
    #[verifier::spinoff_prover]
    fn render(&self, pretty: bool) -> (r: String)
        ensures
            r@ == manifest_rendered(self@, pretty),
    {
        let mut out = String::new();
        push_char(&mut out, '{');
        if pretty {
            push_line_break(&mut out, 2);
        }
        push_key(&mut out, "name", pretty);
        push_json_string(&mut out, self.name.as_str());
        self.push_optional_members_front(&mut out, pretty);
        self.push_optional_members_back(&mut out, pretty);
        proof {
            lemma_tail_concat(optional_members_front(self@), optional_members_back(self@), pretty);
        }
        push_sep(&mut out, pretty);
        push_key(&mut out, "icons", pretty);
        push_icons(&mut out, &self.icons, pretty);
        push_sep(&mut out, pretty);
        push_key(&mut out, "related_applications", pretty);
        push_related_list(&mut out, &self.related_applications, pretty);
        if pretty {
            push_char(&mut out, '\n');
        }
        push_char(&mut out, '}');
        proof {
            lemma_manifest_rendered_parts(self@, pretty);
            if pretty {
                assert(out@ =~= manifest_rendered(self@, true));
            } else {
                assert(out@ =~= manifest_rendered(self@, false));
            }
        }
        out
    }
}



/// Emit one optional string-valued member, preceded by the separator;
/// nothing when the attribute is unset.
fn push_opt_text_group(out: &mut String, key: &str, v: &Option<String>, pretty: bool)
    ensures
        final(out)@ == old(out)@ + members_tail_rendered(
            opt_text_member(key@, opt_string_view(*v)),
            pretty,
        ),
{
    let ghost g = opt_text_member(key@, opt_string_view(*v));
    if let Option::Some(s) = v {
        push_text_member_sep(out, key, s.as_str(), pretty);
        proof {
            lemma_tail_single((key@, JsonField::Text(s@)), pretty);
            assert(g =~= seq![(key@, JsonField::Text(s@))]);
            assert(out@ =~= old(out)@ + members_tail_rendered(g, pretty));
        }
    } else {
        proof {
            assert(g =~= Seq::<(Seq<char>, JsonField)>::empty());
            assert(members_tail_rendered(g, pretty) =~= Seq::<char>::empty());
            assert(out@ =~= old(out)@ + members_tail_rendered(g, pretty));
        }
    }
}

/// Emit the display-mode member, preceded by the separator; nothing when the
/// attribute is unset.
fn push_display_group(out: &mut String, v: Option<DisplayMode>, pretty: bool)
    ensures
        final(out)@ == old(out)@ + members_tail_rendered(display_member(v), pretty),
{
    let ghost g = display_member(v);
    if let Option::Some(d) = v {
        push_sep(out, pretty);
        push_key(out, "display", pretty);
        push_char(out, '"');
        out.append(display_mode_str(d));
        push_char(out, '"');
        proof {
            lemma_display_mode_token_plain(d);
            lemma_plain_unescaped(display_mode_token(d));
            lemma_tail_single(("display"@, JsonField::Text(display_mode_token(d))), pretty);
            assert(g =~= seq![("display"@, JsonField::Text(display_mode_token(d)))]);
            assert(out@ =~= old(out)@ + members_tail_rendered(g, pretty));
        }
    } else {
        proof {
            assert(g =~= Seq::<(Seq<char>, JsonField)>::empty());
            assert(members_tail_rendered(g, pretty) =~= Seq::<char>::empty());
            assert(out@ =~= old(out)@ + members_tail_rendered(g, pretty));
        }
    }
}

/// Emit the direction member, preceded by the separator; nothing when the
/// attribute is unset.
fn push_direction_group(out: &mut String, v: Option<Direction>, pretty: bool)
    ensures
        final(out)@ == old(out)@ + members_tail_rendered(direction_member(v), pretty),
{
    let ghost g = direction_member(v);
    if let Option::Some(d) = v {
        push_sep(out, pretty);
        push_key(out, "dir", pretty);
        push_char(out, '"');
        out.append(direction_str(d));
        push_char(out, '"');
        proof {
            lemma_direction_token_plain(d);
            lemma_plain_unescaped(direction_token(d));
            lemma_tail_single(("dir"@, JsonField::Text(direction_token(d))), pretty);
            assert(g =~= seq![("dir"@, JsonField::Text(direction_token(d)))]);
            assert(out@ =~= old(out)@ + members_tail_rendered(g, pretty));
        }
    } else {
        proof {
            assert(g =~= Seq::<(Seq<char>, JsonField)>::empty());
            assert(members_tail_rendered(g, pretty) =~= Seq::<char>::empty());
            assert(out@ =~= old(out)@ + members_tail_rendered(g, pretty));
        }
    }
}

/// Emit the orientation member, preceded by the separator; nothing when the
/// attribute is unset.
fn push_orientation_group(out: &mut String, v: Option<Orientation>, pretty: bool)
    ensures
        final(out)@ == old(out)@ + members_tail_rendered(orientation_member(v), pretty),
{
    let ghost g = orientation_member(v);
    if let Option::Some(o) = v {
        push_sep(out, pretty);
        push_key(out, "orientation", pretty);
        push_char(out, '"');
        out.append(orientation_str(o));
        push_char(out, '"');
        proof {
            lemma_orientation_token_plain(o);
            lemma_plain_unescaped(orientation_token(o));
            lemma_tail_single(("orientation"@, JsonField::Text(orientation_token(o))), pretty);
            assert(g =~= seq![("orientation"@, JsonField::Text(orientation_token(o)))]);
            assert(out@ =~= old(out)@ + members_tail_rendered(g, pretty));
        }
    } else {
        proof {
            assert(g =~= Seq::<(Seq<char>, JsonField)>::empty());
            assert(members_tail_rendered(g, pretty) =~= Seq::<char>::empty());
            assert(out@ =~= old(out)@ + members_tail_rendered(g, pretty));
        }
    }
}

/// Emit the `prefer_related_applications` member, preceded by the separator;
/// nothing when the attribute is unset.
fn push_prefer_group(out: &mut String, v: Option<bool>, pretty: bool)
    ensures
        final(out)@ == old(out)@ + members_tail_rendered(prefer_member(v), pretty),
{
    let ghost g = prefer_member(v);
    if let Option::Some(b) = v {
        push_sep(out, pretty);
        push_key(out, "prefer_related_applications", pretty);
        if b {
            proof {
                reveal_strlit("true");
                assert("true"@ =~= bool_token(true));
            }
            out.append("true");
        } else {
            proof {
                reveal_strlit("false");
                assert("false"@ =~= bool_token(false));
            }
            out.append("false");
        }
        proof {
            lemma_tail_single(("prefer_related_applications"@, JsonField::Flag(b)), pretty);
            assert(g =~= seq![("prefer_related_applications"@, JsonField::Flag(b))]);
            assert(out@ =~= old(out)@ + members_tail_rendered(g, pretty));
        }
    } else {
        proof {
            assert(g =~= Seq::<(Seq<char>, JsonField)>::empty());
            assert(members_tail_rendered(g, pretty) =~= Seq::<char>::empty());
            assert(out@ =~= old(out)@ + members_tail_rendered(g, pretty));
        }
    }
}

} // verus!
