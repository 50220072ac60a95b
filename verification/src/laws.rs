//! Laws of the wire format, stated and proved once for all manifests: which
//! member fragments appear in the rendered document, under which keys, and
//! how the setters compose.

use vstd::prelude::*;

use crate::direction::Direction;
use crate::direction::direction_token;
use crate::direction::lemma_direction_token_plain;
use crate::display_mode::DisplayMode;
use crate::display_mode::display_mode_token;
use crate::display_mode::lemma_display_mode_token_plain;
use crate::icon::IconView;
use crate::json::contains_seq;
use crate::json::join;
use crate::json::jstr;
use crate::json::key_fragment;
use crate::json::lemma_contains_append;
use crate::json::lemma_contains_prepend;
use crate::json::lemma_contains_self;
use crate::json::lemma_contains_trans;
use crate::json::lemma_join_contains;
use crate::json::lemma_plain_unescaped;
use crate::json::line_break;
use crate::orientation::Orientation;
use crate::orientation::lemma_orientation_token_plain;
use crate::orientation::orientation_token;
use crate::related::RelatedView;
use crate::wire::JsonField;
use crate::wire::array_rendered;
use crate::wire::array_sep;
use crate::wire::icon_rendered;
use crate::wire::ManifestView;
use crate::wire::direction_member;
use crate::wire::display_member;
use crate::wire::field_rendered;
use crate::wire::manifest_members;
use crate::wire::manifest_rendered;
use crate::wire::member_rendered;
use crate::wire::member_sep;
use crate::wire::opt_text_member;
use crate::wire::optional_members;
use crate::wire::optional_members_back;
use crate::wire::optional_members_front;
use crate::wire::orientation_member;
use crate::wire::prefer_member;
use crate::with_bg_color;
use crate::with_description;
use crate::with_direction;
use crate::with_display_mode;
use crate::with_icon;
use crate::with_lang;
use crate::with_orientation;
use crate::with_prefer_related_applications;
use crate::with_related;
use crate::with_scope;
use crate::with_short_name;
use crate::with_start_url;
use crate::with_theme_color;

verus! {

/// An element of the left part is an element of the concatenation.
proof fn lemma_concat_elem_left<A>(a: Seq<A>, b: Seq<A>, x: A)
    requires
        a.contains(x),
    ensures
        (a + b).contains(x),
{
    let i = choose|i: int| 0 <= i < a.len() && a[i] == x;
    assert((a + b)[i] == x);
}

/// An element of the right part is an element of the concatenation.
proof fn lemma_concat_elem_right<A>(a: Seq<A>, b: Seq<A>, x: A)
    requires
        b.contains(x),
    ensures
        (a + b).contains(x),
{
    let i = choose|i: int| 0 <= i < b.len() && b[i] == x;
    assert((a + b)[a.len() + i] == x);
}

/// Every member of the member list appears contiguously in the rendered
/// document, as its quoted key, a colon, and its rendered value.
pub proof fn lemma_member_on_wire(m: ManifestView, kv: (Seq<char>, JsonField), pretty: bool)
    requires
        manifest_members(m).contains(kv),
    ensures
        contains_seq(manifest_rendered(m, pretty), member_rendered(kv, pretty)),
{
    let ms = manifest_members(m);
    let f = |kv: (Seq<char>, JsonField)| member_rendered(kv, pretty);
    let parts = ms.map_values(f);
    let k = choose|k: int| 0 <= k < ms.len() && ms[k] == kv;
    assert(parts[k] == member_rendered(kv, pretty));
    lemma_join_contains(parts, member_sep(pretty), k);
    let joined = join(parts, member_sep(pretty));
    let frag = member_rendered(kv, pretty);
    if pretty {
        lemma_contains_prepend(seq!['{'] + line_break(2), joined, frag);
        lemma_contains_append((seq!['{'] + line_break(2)) + joined, seq!['\n', '}'], frag);
        assert((seq!['{'] + line_break(2)) + joined + seq!['\n', '}'] =~= manifest_rendered(
            m,
            true,
        ));
    } else {
        lemma_contains_prepend(seq!['{'], joined, frag);
        lemma_contains_append(seq!['{'] + joined, seq!['}'], frag);
        assert(seq!['{'] + joined + seq!['}'] =~= manifest_rendered(m, false));
    }
}

/// A set direction is in the member list, under the wire key `dir` with its
/// exact token.
proof fn lemma_direction_member_listed(m: ManifestView, d: Direction)
    requires
        m.direction == Option::Some(d),
    ensures
        manifest_members(m).contains(("dir"@, JsonField::Text(direction_token(d)))),
{
    let kv = ("dir"@, JsonField::Text(direction_token(d)));
    assert(direction_member(m.direction)[0] == kv);
    assert(direction_member(m.direction).contains(kv));
    let g2 = orientation_member(m.orientation);
    let g3 = opt_text_member("lang"@, m.lang);
    let g4 = opt_text_member("scope"@, m.scope);
    let g5 = opt_text_member("theme_color"@, m.theme_color);
    let g6 = prefer_member(m.prefer_related_applications);
    lemma_concat_elem_left(direction_member(m.direction), g2, kv);
    lemma_concat_elem_left(direction_member(m.direction) + g2, g3, kv);
    lemma_concat_elem_left(direction_member(m.direction) + g2 + g3, g4, kv);
    lemma_concat_elem_left(direction_member(m.direction) + g2 + g3 + g4, g5, kv);
    lemma_concat_elem_left(direction_member(m.direction) + g2 + g3 + g4 + g5, g6, kv);
    lemma_concat_elem_right(optional_members_front(m), optional_members_back(m), kv);
    lemma_concat_elem_right(
        seq![("name"@, JsonField::Text(m.name))],
        optional_members(m),
        kv,
    );
    lemma_concat_elem_left(
        seq![("name"@, JsonField::Text(m.name))] + optional_members(m),
        seq![("icons"@, JsonField::Icons(m.icons))],
        kv,
    );
    lemma_concat_elem_left(
        seq![("name"@, JsonField::Text(m.name))] + optional_members(m) + seq![
            ("icons"@, JsonField::Icons(m.icons)),
        ],
        seq![("related_applications"@, JsonField::RelatedApps(m.related_applications))],
        kv,
    );
}

/// A set display mode is in the member list, under the wire key `display`
/// with its exact token.
proof fn lemma_display_member_listed(m: ManifestView, d: DisplayMode)
    requires
        m.display_mode == Option::Some(d),
    ensures
        manifest_members(m).contains(("display"@, JsonField::Text(display_mode_token(d)))),
{
    let kv = ("display"@, JsonField::Text(display_mode_token(d)));
    assert(display_member(m.display_mode)[0] == kv);
    assert(display_member(m.display_mode).contains(kv));
    let g1 = opt_text_member("short_name"@, m.short_name);
    let g2 = opt_text_member("start_url"@, m.start_url);
    let g4 = opt_text_member("background_color"@, m.background_color);
    let g5 = opt_text_member("description"@, m.description);
    lemma_concat_elem_right(g1 + g2, display_member(m.display_mode), kv);
    lemma_concat_elem_left(g1 + g2 + display_member(m.display_mode), g4, kv);
    lemma_concat_elem_left(g1 + g2 + display_member(m.display_mode) + g4, g5, kv);
    lemma_concat_elem_left(optional_members_front(m), optional_members_back(m), kv);
    lemma_concat_elem_right(
        seq![("name"@, JsonField::Text(m.name))],
        optional_members(m),
        kv,
    );
    lemma_concat_elem_left(
        seq![("name"@, JsonField::Text(m.name))] + optional_members(m),
        seq![("icons"@, JsonField::Icons(m.icons))],
        kv,
    );
    lemma_concat_elem_left(
        seq![("name"@, JsonField::Text(m.name))] + optional_members(m) + seq![
            ("icons"@, JsonField::Icons(m.icons)),
        ],
        seq![("related_applications"@, JsonField::RelatedApps(m.related_applications))],
        kv,
    );
}

/// A set orientation is in the member list, under the key `orientation` with
/// its exact token.
proof fn lemma_orientation_member_listed(m: ManifestView, o: Orientation)
    requires
        m.orientation == Option::Some(o),
    ensures
        manifest_members(m).contains(("orientation"@, JsonField::Text(orientation_token(o)))),
{
    let kv = ("orientation"@, JsonField::Text(orientation_token(o)));
    assert(orientation_member(m.orientation)[0] == kv);
    assert(orientation_member(m.orientation).contains(kv));
    let g1 = direction_member(m.direction);
    let g3 = opt_text_member("lang"@, m.lang);
    let g4 = opt_text_member("scope"@, m.scope);
    let g5 = opt_text_member("theme_color"@, m.theme_color);
    let g6 = prefer_member(m.prefer_related_applications);
    lemma_concat_elem_right(g1, orientation_member(m.orientation), kv);
    lemma_concat_elem_left(g1 + orientation_member(m.orientation), g3, kv);
    lemma_concat_elem_left(g1 + orientation_member(m.orientation) + g3, g4, kv);
    lemma_concat_elem_left(g1 + orientation_member(m.orientation) + g3 + g4, g5, kv);
    lemma_concat_elem_left(g1 + orientation_member(m.orientation) + g3 + g4 + g5, g6, kv);
    lemma_concat_elem_right(optional_members_front(m), optional_members_back(m), kv);
    lemma_concat_elem_right(
        seq![("name"@, JsonField::Text(m.name))],
        optional_members(m),
        kv,
    );
    lemma_concat_elem_left(
        seq![("name"@, JsonField::Text(m.name))] + optional_members(m),
        seq![("icons"@, JsonField::Icons(m.icons))],
        kv,
    );
    lemma_concat_elem_left(
        seq![("name"@, JsonField::Text(m.name))] + optional_members(m) + seq![
            ("icons"@, JsonField::Icons(m.icons)),
        ],
        seq![("related_applications"@, JsonField::RelatedApps(m.related_applications))],
        kv,
    );
}

/// The two collection members are always in the member list.
proof fn lemma_collections_listed(m: ManifestView)
    ensures
        manifest_members(m).contains(("icons"@, JsonField::Icons(m.icons))),
        manifest_members(m).contains(
            ("related_applications"@, JsonField::RelatedApps(m.related_applications)),
        ),
{
    let icons_kv = ("icons"@, JsonField::Icons(m.icons));
    let rel_kv = ("related_applications"@, JsonField::RelatedApps(m.related_applications));
    let a = seq![("name"@, JsonField::Text(m.name))] + optional_members(m);
    assert(seq![icons_kv][0] == icons_kv);
    assert(seq![icons_kv].contains(icons_kv));
    lemma_concat_elem_right(a, seq![icons_kv], icons_kv);
    lemma_concat_elem_left(a + seq![icons_kv], seq![rel_kv], icons_kv);
    assert(seq![rel_kv][0] == rel_kv);
    assert(seq![rel_kv].contains(rel_kv));
    lemma_concat_elem_right(a + seq![icons_kv], seq![rel_kv], rel_kv);
}

/// When the direction is set, the document contains the fragment
/// `"dir":` followed by the direction's exact quoted wire token — the
/// `direction` attribute is renamed to `dir` on the wire and its token
/// escapes to itself.
pub proof fn lemma_direction_on_wire(m: ManifestView, d: Direction, pretty: bool)
    requires
        m.direction == Option::Some(d),
    ensures
        contains_seq(
            manifest_rendered(m, pretty),
            key_fragment("dir"@, pretty) + seq!['"'] + direction_token(d) + seq!['"'],
        ),
{
    let kv = ("dir"@, JsonField::Text(direction_token(d)));
    lemma_direction_member_listed(m, d);
    lemma_member_on_wire(m, kv, pretty);
    lemma_direction_token_plain(d);
    lemma_plain_unescaped(direction_token(d));
    assert(member_rendered(kv, pretty) =~= key_fragment("dir"@, pretty) + seq!['"']
        + direction_token(d) + seq!['"']);
}

/// When the display mode is set, the document contains the fragment
/// `"display":` followed by the mode's exact quoted wire token — the
/// `display_mode` attribute is renamed to `display` on the wire and its token
/// escapes to itself.
pub proof fn lemma_display_mode_on_wire(m: ManifestView, d: DisplayMode, pretty: bool)
    requires
        m.display_mode == Option::Some(d),
    ensures
        contains_seq(
            manifest_rendered(m, pretty),
            key_fragment("display"@, pretty) + seq!['"'] + display_mode_token(d) + seq!['"'],
        ),
{
    let kv = ("display"@, JsonField::Text(display_mode_token(d)));
    lemma_display_member_listed(m, d);
    lemma_member_on_wire(m, kv, pretty);
    lemma_display_mode_token_plain(d);
    lemma_plain_unescaped(display_mode_token(d));
    assert(member_rendered(kv, pretty) =~= key_fragment("display"@, pretty) + seq!['"']
        + display_mode_token(d) + seq!['"']);
}

/// When the orientation is set, the document contains the fragment
/// `"orientation":` followed by the orientation's exact quoted wire token.
pub proof fn lemma_orientation_on_wire(m: ManifestView, o: Orientation, pretty: bool)
    requires
        m.orientation == Option::Some(o),
    ensures
        contains_seq(
            manifest_rendered(m, pretty),
            key_fragment("orientation"@, pretty) + seq!['"'] + orientation_token(o) + seq!['"'],
        ),
{
    let kv = ("orientation"@, JsonField::Text(orientation_token(o)));
    lemma_orientation_member_listed(m, o);
    lemma_member_on_wire(m, kv, pretty);
    lemma_orientation_token_plain(o);
    lemma_plain_unescaped(orientation_token(o));
    assert(member_rendered(kv, pretty) =~= key_fragment("orientation"@, pretty) + seq!['"']
        + orientation_token(o) + seq!['"']);
}

/// The document always contains the `icons` member — the rendered array of
/// the manifest's icons, in insertion order — and likewise the
/// `related_applications` member; both appear even when empty.
pub proof fn lemma_collections_on_wire(m: ManifestView, pretty: bool)
    ensures
        contains_seq(
            manifest_rendered(m, pretty),
            key_fragment("icons"@, pretty) + field_rendered(JsonField::Icons(m.icons), pretty),
        ),
        contains_seq(
            manifest_rendered(m, pretty),
            key_fragment("related_applications"@, pretty) + field_rendered(
                JsonField::RelatedApps(m.related_applications),
                pretty,
            ),
        ),
{
    lemma_collections_listed(m);
    lemma_member_on_wire(m, ("icons"@, JsonField::Icons(m.icons)), pretty);
    lemma_member_on_wire(
        m,
        ("related_applications"@, JsonField::RelatedApps(m.related_applications)),
        pretty,
    );
}

/// Every icon of the manifest appears contiguously in the document as its
/// rendered object.
#[verifier::rlimit(100)]
#[verifier::spinoff_prover]
proof fn lemma_icon_object_on_wire(m: ManifestView, k: int, pretty: bool)
    requires
        0 <= k < m.icons.len(),
    ensures
        contains_seq(manifest_rendered(m, pretty), icon_rendered(m.icons[k], pretty)),
{
    let i = m.icons[k];
    let doc = manifest_rendered(m, pretty);
    lemma_collections_on_wire(m, pretty);
    let icons_member = key_fragment("icons"@, pretty) + field_rendered(
        JsonField::Icons(m.icons),
        pretty,
    );
    let elems = m.icons.map_values(|iv: IconView| icon_rendered(iv, pretty));
    assert(elems[k] == icon_rendered(i, pretty));
    lemma_join_contains(elems, array_sep(pretty), k);
    let joined = join(elems, array_sep(pretty));
    let obj = icon_rendered(i, pretty);
    if pretty {
        lemma_contains_prepend(seq!['['] + line_break(4), joined, obj);
        lemma_contains_append((seq!['['] + line_break(4)) + joined, line_break(2) + seq![']'], obj);
        assert(((seq!['['] + line_break(4)) + joined) + (line_break(2) + seq![']'])
            =~= array_rendered(elems, true));
    } else {
        lemma_contains_prepend(seq!['['], joined, obj);
        lemma_contains_append(seq!['['] + joined, seq![']'], obj);
        assert((seq!['['] + joined) + seq![']'] =~= array_rendered(elems, false));
    }
    lemma_contains_prepend(key_fragment("icons"@, pretty), array_rendered(elems, pretty), obj);
    lemma_collections_listed(m);
    lemma_member_on_wire(m, ("icons"@, JsonField::Icons(m.icons)), pretty);
    assert(member_rendered(("icons"@, JsonField::Icons(m.icons)), pretty) == icons_member);
    lemma_contains_trans(doc, icons_member, obj);
}

/// A rendered icon object carries the icon's media type under the wire key
/// `type`.
#[verifier::rlimit(100)]
#[verifier::spinoff_prover]
proof fn lemma_icon_object_type_fragment(i: IconView, pretty: bool)
    ensures
        contains_seq(
            icon_rendered(i, pretty),
            key_fragment("type"@, pretty) + jstr(i.icon_type),
        ),
{
    let type_frag = key_fragment("type"@, pretty) + jstr(i.icon_type);
    lemma_contains_self(type_frag);
    if pretty {
        let before = ((((((((seq!['{'] + line_break(6)) + key_fragment("src"@, true)) + jstr(
            i.src,
        )) + seq![',']) + line_break(6)) + key_fragment("sizes"@, true)) + jstr(i.sizes))
            + seq![',']) + line_break(6);
        lemma_contains_prepend(before, type_frag, type_frag);
        lemma_contains_append(before + type_frag, line_break(4) + seq!['}'], type_frag);
        assert((before + type_frag) + (line_break(4) + seq!['}']) =~= icon_rendered(i, true));
    } else {
        let before = (((((seq!['{'] + key_fragment("src"@, false)) + jstr(i.src)) + seq![','])
            + key_fragment("sizes"@, false)) + jstr(i.sizes)) + seq![','];
        lemma_contains_prepend(before, type_frag, type_frag);
        lemma_contains_append(before + type_frag, seq!['}'], type_frag);
        assert((before + type_frag) + seq!['}'] =~= icon_rendered(i, false));
    }
}

/// Every icon of the manifest appears contiguously in the document as its
/// rendered object, and that object carries the icon's media type under the
/// wire key `type` — the `icon_type` attribute is renamed to `type`.
pub proof fn lemma_icon_type_on_wire(m: ManifestView, k: int, pretty: bool)
    requires
        0 <= k < m.icons.len(),
    ensures
        contains_seq(manifest_rendered(m, pretty), icon_rendered(m.icons[k], pretty)),
        contains_seq(
            manifest_rendered(m, pretty),
            key_fragment("type"@, pretty) + jstr(m.icons[k].icon_type),
        ),
{
    lemma_icon_object_on_wire(m, k, pretty);
    lemma_icon_object_type_fragment(m.icons[k], pretty);
    lemma_contains_trans(
        manifest_rendered(m, pretty),
        icon_rendered(m.icons[k], pretty),
        key_fragment("type"@, pretty) + jstr(m.icons[k].icon_type),
    );
}

/// Scalar setters overwrite: setting the same attribute twice leaves the
/// second value, for every scalar attribute of the manifest.
pub proof fn lemma_scalar_setters_last_write_wins(
    m: ManifestView,
    a: Seq<char>,
    b: Seq<char>,
    dm1: DisplayMode,
    dm2: DisplayMode,
    d1: Direction,
    d2: Direction,
    o1: Orientation,
    o2: Orientation,
    p1: bool,
    p2: bool,
)
    ensures
        with_short_name(with_short_name(m, a), b) == with_short_name(m, b),
        with_start_url(with_start_url(m, a), b) == with_start_url(m, b),
        with_display_mode(with_display_mode(m, dm1), dm2) == with_display_mode(m, dm2),
        with_bg_color(with_bg_color(m, a), b) == with_bg_color(m, b),
        with_description(with_description(m, a), b) == with_description(m, b),
        with_direction(with_direction(m, d1), d2) == with_direction(m, d2),
        with_orientation(with_orientation(m, o1), o2) == with_orientation(m, o2),
        with_lang(with_lang(m, a), b) == with_lang(m, b),
        with_scope(with_scope(m, a), b) == with_scope(m, b),
        with_theme_color(with_theme_color(m, a), b) == with_theme_color(m, b),
        with_prefer_related_applications(with_prefer_related_applications(m, p1), p2)
            == with_prefer_related_applications(m, p2),
{
    assert(with_short_name(with_short_name(m, a), b) =~= with_short_name(m, b));
    assert(with_start_url(with_start_url(m, a), b) =~= with_start_url(m, b));
    assert(with_display_mode(with_display_mode(m, dm1), dm2) =~= with_display_mode(m, dm2));
    assert(with_bg_color(with_bg_color(m, a), b) =~= with_bg_color(m, b));
    assert(with_description(with_description(m, a), b) =~= with_description(m, b));
    assert(with_direction(with_direction(m, d1), d2) =~= with_direction(m, d2));
    assert(with_orientation(with_orientation(m, o1), o2) =~= with_orientation(m, o2));
    assert(with_lang(with_lang(m, a), b) =~= with_lang(m, b));
    assert(with_scope(with_scope(m, a), b) =~= with_scope(m, b));
    assert(with_theme_color(with_theme_color(m, a), b) =~= with_theme_color(m, b));
    assert(with_prefer_related_applications(with_prefer_related_applications(m, p1), p2)
        =~= with_prefer_related_applications(m, p2));
}

/// Appending is additive: two appended icons land behind the existing ones,
/// in call order, and the collection grows by exactly two; likewise for
/// related applications. In particular appending never replaces.
pub proof fn lemma_appends_are_additive(
    m: ManifestView,
    i1: IconView,
    i2: IconView,
    r1: RelatedView,
    r2: RelatedView,
)
    ensures
        with_icon(with_icon(m, i1), i2).icons == m.icons.push(i1).push(i2),
        with_icon(with_icon(m, i1), i2).icons.len() == m.icons.len() + 2,
        with_icon(with_icon(m, i1), i2).icons[m.icons.len() as int] == i1,
        with_icon(with_icon(m, i1), i2).icons[m.icons.len() as int + 1] == i2,
        with_icon(with_icon(m, i1), i2).icons.subrange(0, m.icons.len() as int) == m.icons,
        with_related(with_related(m, r1), r2).related_applications
            == m.related_applications.push(r1).push(r2),
        with_related(with_related(m, r1), r2).related_applications.len()
            == m.related_applications.len() + 2,
        with_related(with_related(m, r1), r2).related_applications[m.related_applications.len() as int]
            == r1,
        with_related(with_related(m, r1), r2).related_applications[m.related_applications.len() as int
            + 1] == r2,
        with_related(with_related(m, r1), r2).related_applications.subrange(
            0,
            m.related_applications.len() as int,
        ) == m.related_applications,
{
    assert(with_icon(with_icon(m, i1), i2).icons.subrange(0, m.icons.len() as int) =~= m.icons);
    assert(with_related(with_related(m, r1), r2).related_applications.subrange(
        0,
        m.related_applications.len() as int,
    ) =~= m.related_applications);
}

/// The keys of a member list, in order.
pub open spec fn keys_of(ms: Seq<(Seq<char>, JsonField)>) -> Seq<Seq<char>> {
    ms.map_values(|kv: (Seq<char>, JsonField)| kv.0)
}

/// The keys of the member list, in serialization order.
pub open spec fn member_keys(m: ManifestView) -> Seq<Seq<char>> {
    keys_of(manifest_members(m))
}

/// One key, present or absent.
pub open spec fn opt_key(key: Seq<char>, present: bool) -> Seq<Seq<char>> {
    if present {
        seq![key]
    } else {
        Seq::empty()
    }
}

/// Taking keys distributes over concatenation.
proof fn lemma_keys_of_concat(a: Seq<(Seq<char>, JsonField)>, b: Seq<(Seq<char>, JsonField)>)
    ensures
        keys_of(a + b) == keys_of(a) + keys_of(b),
{
    assert(keys_of(a + b) =~= keys_of(a) + keys_of(b));
}

/// The keys of the first half of the optional members.
#[verifier::rlimit(100)]
#[verifier::spinoff_prover]
proof fn lemma_optional_keys_front(m: ManifestView)
    ensures
        keys_of(optional_members_front(m)) == opt_key("short_name"@, m.short_name is Some)
            + opt_key("start_url"@, m.start_url is Some) + opt_key(
            "display"@,
            m.display_mode is Some,
        ) + opt_key("background_color"@, m.background_color is Some) + opt_key(
            "description"@,
            m.description is Some,
        ),
{
    let g1 = opt_text_member("short_name"@, m.short_name);
    let g2 = opt_text_member("start_url"@, m.start_url);
    let g3 = display_member(m.display_mode);
    let g4 = opt_text_member("background_color"@, m.background_color);
    let g5 = opt_text_member("description"@, m.description);
    assert(keys_of(g1) =~= opt_key("short_name"@, m.short_name is Some));
    assert(keys_of(g2) =~= opt_key("start_url"@, m.start_url is Some));
    assert(keys_of(g3) =~= opt_key("display"@, m.display_mode is Some));
    assert(keys_of(g4) =~= opt_key("background_color"@, m.background_color is Some));
    assert(keys_of(g5) =~= opt_key("description"@, m.description is Some));
    lemma_keys_of_concat(g1, g2);
    lemma_keys_of_concat(g1 + g2, g3);
    lemma_keys_of_concat(g1 + g2 + g3, g4);
    lemma_keys_of_concat(g1 + g2 + g3 + g4, g5);
}

/// The keys of the second half of the optional members.
#[verifier::rlimit(100)]
#[verifier::spinoff_prover]
proof fn lemma_optional_keys_back(m: ManifestView)
    ensures
        keys_of(optional_members_back(m)) == opt_key("dir"@, m.direction is Some) + opt_key(
            "orientation"@,
            m.orientation is Some,
        ) + opt_key("lang"@, m.lang is Some) + opt_key("scope"@, m.scope is Some) + opt_key(
            "theme_color"@,
            m.theme_color is Some,
        ) + opt_key("prefer_related_applications"@, m.prefer_related_applications is Some),
{
    let g6 = direction_member(m.direction);
    let g7 = orientation_member(m.orientation);
    let g8 = opt_text_member("lang"@, m.lang);
    let g9 = opt_text_member("scope"@, m.scope);
    let g10 = opt_text_member("theme_color"@, m.theme_color);
    let g11 = prefer_member(m.prefer_related_applications);
    assert(keys_of(g6) =~= opt_key("dir"@, m.direction is Some));
    assert(keys_of(g7) =~= opt_key("orientation"@, m.orientation is Some));
    assert(keys_of(g8) =~= opt_key("lang"@, m.lang is Some));
    assert(keys_of(g9) =~= opt_key("scope"@, m.scope is Some));
    assert(keys_of(g10) =~= opt_key("theme_color"@, m.theme_color is Some));
    assert(keys_of(g11) =~= opt_key(
        "prefer_related_applications"@,
        m.prefer_related_applications is Some,
    ));
    lemma_keys_of_concat(g6, g7);
    lemma_keys_of_concat(g6 + g7, g8);
    lemma_keys_of_concat(g6 + g7 + g8, g9);
    lemma_keys_of_concat(g6 + g7 + g8 + g9, g10);
    lemma_keys_of_concat(g6 + g7 + g8 + g9 + g10, g11);
}

/// The exact keys of the document, in serialization order, as a function of
/// which attributes are set: `name` always first, one key per optional scalar
/// that is set — `display_mode` under `display`, `direction` under `dir`,
/// every other attribute under its own name — and `icons` and
/// `related_applications` always last. Nothing else ever appears.
#[verifier::rlimit(100)]
#[verifier::spinoff_prover]
pub proof fn lemma_member_keys_form(m: ManifestView)
    ensures
        member_keys(m) == seq!["name"@] + (opt_key("short_name"@, m.short_name is Some) + opt_key(
            "start_url"@,
            m.start_url is Some,
        ) + opt_key("display"@, m.display_mode is Some) + opt_key(
            "background_color"@,
            m.background_color is Some,
        ) + opt_key("description"@, m.description is Some)) + (opt_key(
            "dir"@,
            m.direction is Some,
        ) + opt_key("orientation"@, m.orientation is Some) + opt_key("lang"@, m.lang is Some)
            + opt_key("scope"@, m.scope is Some) + opt_key("theme_color"@, m.theme_color is Some)
            + opt_key("prefer_related_applications"@, m.prefer_related_applications is Some))
            + seq!["icons"@] + seq!["related_applications"@],
{
    let name_g = seq![("name"@, JsonField::Text(m.name))];
    let icons_g = seq![("icons"@, JsonField::Icons(m.icons))];
    let rel_g = seq![("related_applications"@, JsonField::RelatedApps(m.related_applications))];
    assert(keys_of(name_g) =~= seq!["name"@]);
    assert(keys_of(icons_g) =~= seq!["icons"@]);
    assert(keys_of(rel_g) =~= seq!["related_applications"@]);
    lemma_optional_keys_front(m);
    lemma_optional_keys_back(m);
    lemma_keys_of_concat(optional_members_front(m), optional_members_back(m));
    lemma_keys_of_concat(name_g, optional_members(m));
    lemma_keys_of_concat(name_g + optional_members(m), icons_g);
    lemma_keys_of_concat(name_g + optional_members(m) + icons_g, rel_g);
    assert(keys_of(name_g) + keys_of(optional_members(m)) =~= seq!["name"@] + (keys_of(
        optional_members_front(m),
    ) + keys_of(optional_members_back(m))));
}

/// Omission: a manifest with no optional scalar set has exactly the three
/// members `name`, `icons` and `related_applications` — no nulls, no other
/// keys.
pub proof fn lemma_unset_scalars_omitted(m: ManifestView)
    requires
        m.short_name is None,
        m.start_url is None,
        m.display_mode is None,
        m.background_color is None,
        m.description is None,
        m.direction is None,
        m.orientation is None,
        m.lang is None,
        m.scope is None,
        m.theme_color is None,
        m.prefer_related_applications is None,
    ensures
        member_keys(m) == seq!["name"@, "icons"@, "related_applications"@],
        manifest_members(m).len() == 3,
{
    assert(manifest_members(m) =~= seq![
        ("name"@, JsonField::Text(m.name)),
        ("icons"@, JsonField::Icons(m.icons)),
        ("related_applications"@, JsonField::RelatedApps(m.related_applications)),
    ]);
    assert(member_keys(m) =~= seq!["name"@, "icons"@, "related_applications"@]);
}

/// The member list holds `name`, `icons`, `related_applications`, and one
/// member for each optional scalar that is set: nothing else.
#[verifier::rlimit(100)]
#[verifier::spinoff_prover]
pub proof fn lemma_member_count(m: ManifestView)
    ensures
        manifest_members(m).len() == 3 + (if m.short_name is Some {
            1int
        } else {
            0
        }) + (if m.start_url is Some {
            1int
        } else {
            0
        }) + (if m.display_mode is Some {
            1int
        } else {
            0
        }) + (if m.background_color is Some {
            1int
        } else {
            0
        }) + (if m.description is Some {
            1int
        } else {
            0
        }) + (if m.direction is Some {
            1int
        } else {
            0
        }) + (if m.orientation is Some {
            1int
        } else {
            0
        }) + (if m.lang is Some {
            1int
        } else {
            0
        }) + (if m.scope is Some {
            1int
        } else {
            0
        }) + (if m.theme_color is Some {
            1int
        } else {
            0
        }) + (if m.prefer_related_applications is Some {
            1int
        } else {
            0
        }),
{
    assert(optional_members_front(m).len() == (if m.short_name is Some {
        1int
    } else {
        0
    }) + (if m.start_url is Some {
        1int
    } else {
        0
    }) + (if m.display_mode is Some {
        1int
    } else {
        0
    }) + (if m.background_color is Some {
        1int
    } else {
        0
    }) + (if m.description is Some {
        1int
    } else {
        0
    }));
    assert(optional_members_back(m).len() == (if m.direction is Some {
        1int
    } else {
        0
    }) + (if m.orientation is Some {
        1int
    } else {
        0
    }) + (if m.lang is Some {
        1int
    } else {
        0
    }) + (if m.scope is Some {
        1int
    } else {
        0
    }) + (if m.theme_color is Some {
        1int
    } else {
        0
    }) + (if m.prefer_related_applications is Some {
        1int
    } else {
        0
    }));
}

} // verus!
