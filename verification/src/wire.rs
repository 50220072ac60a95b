//! The wire format of a manifest document.
//!
//! [`manifest_members`] lists the members of the JSON object in serialization
//! order, applying the omission rule (an unset optional scalar does not
//! appear at all) and the key renames (`display_mode` appears as `display`,
//! `direction` as `dir`). [`manifest_rendered`] turns that list into the
//! exact character sequence of the document, compact or indented.

use vstd::prelude::*;

use crate::direction::Direction;
use crate::direction::direction_token;
use crate::display_mode::DisplayMode;
use crate::display_mode::display_mode_token;
use crate::icon::Icon;
use crate::icon::IconView;
use crate::json::bool_token;
use crate::json::join;
use crate::json::jstr;
use crate::json::key_fragment;
use crate::json::lemma_join_snoc;
use crate::json::line_break;
use crate::json::push_char;
use crate::json::push_json_string;
use crate::json::push_key;
use crate::json::push_line_break;
use crate::orientation::Orientation;
use crate::orientation::orientation_token;
use crate::related::Related;
use crate::related::RelatedView;

verus! {

/// View of a manifest: every serialized attribute as a mathematical value.
/// An optional attribute is `None` exactly when it was never set.
#[verifier::ext_equal]
pub ghost struct ManifestView {
    /// Required name of the application.
    pub name: Seq<char>,
    /// Short name, shown where space is scarce.
    pub short_name: Option<Seq<char>>,
    /// URL loaded when the application starts.
    pub start_url: Option<Seq<char>>,
    /// Preferred display mode; wire key `display`.
    pub display_mode: Option<DisplayMode>,
    /// Background color of the splash screen.
    pub background_color: Option<Seq<char>>,
    /// Free-form description of the application.
    pub description: Option<Seq<char>>,
    /// Base text direction; wire key `dir`.
    pub direction: Option<Direction>,
    /// Default screen orientation.
    pub orientation: Option<Orientation>,
    /// Primary language tag.
    pub lang: Option<Seq<char>>,
    /// Navigation scope URL prefix.
    pub scope: Option<Seq<char>>,
    /// Theme color of the application.
    pub theme_color: Option<Seq<char>>,
    /// Whether native applications are preferred over the website.
    pub prefer_related_applications: Option<bool>,
    /// Icons, in insertion order; always serialized, possibly as `[]`.
    pub icons: Seq<IconView>,
    /// Related applications, in insertion order; always serialized.
    pub related_applications: Seq<RelatedView>,
}

/// The value of one top-level member, before rendering.
pub ghost enum JsonField {
    /// A string-valued member.
    Text(Seq<char>),
    /// A boolean member.
    Flag(bool),
    /// The `icons` array.
    Icons(Seq<IconView>),
    /// The `related_applications` array.
    RelatedApps(Seq<RelatedView>),
}

/// One optional string member: present exactly when the attribute is set.
pub open spec fn opt_text_member(key: Seq<char>, v: Option<Seq<char>>) -> Seq<
    (Seq<char>, JsonField),
> {
    match v {
        Option::None => Seq::empty(),
        Option::Some(s) => seq![(key, JsonField::Text(s))],
    }
}

/// The display-mode member, under its wire key `display`: present exactly
/// when the attribute is set, holding the mode's wire token.
pub open spec fn display_member(v: Option<DisplayMode>) -> Seq<(Seq<char>, JsonField)> {
    match v {
        Option::None => Seq::empty(),
        Option::Some(d) => seq![("display"@, JsonField::Text(display_mode_token(d)))],
    }
}

/// The direction member, under its wire key `dir`: present exactly when the
/// attribute is set, holding the direction's wire token.
pub open spec fn direction_member(v: Option<Direction>) -> Seq<(Seq<char>, JsonField)> {
    match v {
        Option::None => Seq::empty(),
        Option::Some(d) => seq![("dir"@, JsonField::Text(direction_token(d)))],
    }
}

/// The orientation member: present exactly when the attribute is set,
/// holding the orientation's wire token.
pub open spec fn orientation_member(v: Option<Orientation>) -> Seq<(Seq<char>, JsonField)> {
    match v {
        Option::None => Seq::empty(),
        Option::Some(o) => seq![("orientation"@, JsonField::Text(orientation_token(o)))],
    }
}

/// The `prefer_related_applications` member: present exactly when the
/// attribute is set, holding the boolean.
pub open spec fn prefer_member(v: Option<bool>) -> Seq<(Seq<char>, JsonField)> {
    match v {
        Option::None => Seq::empty(),
        Option::Some(b) => seq![("prefer_related_applications"@, JsonField::Flag(b))],
    }
}

/// The first half of the optional scalar members, in serialization order:
/// `short_name`, `start_url`, the display mode (wire key `display`),
/// `background_color` and `description`, each present exactly when set.
pub open spec fn optional_members_front(m: ManifestView) -> Seq<(Seq<char>, JsonField)> {
    opt_text_member("short_name"@, m.short_name) + opt_text_member("start_url"@, m.start_url)
        + display_member(m.display_mode) + opt_text_member(
        "background_color"@,
        m.background_color,
    ) + opt_text_member("description"@, m.description)
}

/// The second half of the optional scalar members, in serialization order:
/// the direction (wire key `dir`), the orientation, `lang`, `scope`,
/// `theme_color` and `prefer_related_applications`, each present exactly when
/// set.
pub open spec fn optional_members_back(m: ManifestView) -> Seq<(Seq<char>, JsonField)> {
    direction_member(m.direction) + orientation_member(m.orientation) + opt_text_member(
        "lang"@,
        m.lang,
    ) + opt_text_member("scope"@, m.scope) + opt_text_member("theme_color"@, m.theme_color)
        + prefer_member(m.prefer_related_applications)
}

/// The manifest's optional scalar members in serialization order, each
/// present exactly when the attribute is set. The display mode is serialized
/// under the key `display`, the direction under `dir`, and the enumerations
/// as their wire tokens; every other key is the attribute's own name.
pub open spec fn optional_members(m: ManifestView) -> Seq<(Seq<char>, JsonField)> {
    optional_members_front(m) + optional_members_back(m)
}

/// The manifest's members in serialization order: `name` first, then every
/// optional scalar that is set, then `icons` and `related_applications`.
pub open spec fn manifest_members(m: ManifestView) -> Seq<(Seq<char>, JsonField)> {
    seq![("name"@, JsonField::Text(m.name))] + optional_members(m) + seq![
        ("icons"@, JsonField::Icons(m.icons)),
    ] + seq![("related_applications"@, JsonField::RelatedApps(m.related_applications))]
}

/// Rendered form of one icon: a JSON object with the keys `src`, `sizes` and
/// `type`, in that order, all string-valued.
pub open spec fn icon_rendered(i: IconView, pretty: bool) -> Seq<char> {
    if pretty {
        seq!['{'] + line_break(6) + key_fragment("src"@, true) + jstr(i.src) + seq![',']
            + line_break(6) + key_fragment("sizes"@, true) + jstr(i.sizes) + seq![','] + line_break(
            6,
        ) + key_fragment("type"@, true) + jstr(i.icon_type) + line_break(4) + seq!['}']
    } else {
        seq!['{'] + key_fragment("src"@, false) + jstr(i.src) + seq![','] + key_fragment(
            "sizes"@,
            false,
        ) + jstr(i.sizes) + seq![','] + key_fragment("type"@, false) + jstr(i.icon_type)
            + seq!['}']
    }
}

/// Rendered form of one related application: a JSON object with the keys
/// `platform` and `url`, in that order, both string-valued.
pub open spec fn related_rendered(r: RelatedView, pretty: bool) -> Seq<char> {
    if pretty {
        seq!['{'] + line_break(6) + key_fragment("platform"@, true) + jstr(r.platform) + seq![',']
            + line_break(6) + key_fragment("url"@, true) + jstr(r.url) + line_break(4) + seq!['}']
    } else {
        seq!['{'] + key_fragment("platform"@, false) + jstr(r.platform) + seq![','] + key_fragment(
            "url"@,
            false,
        ) + jstr(r.url) + seq!['}']
    }
}

/// What separates two consecutive array elements.
pub open spec fn array_sep(pretty: bool) -> Seq<char> {
    if pretty {
        seq![','] + line_break(4)
    } else {
        seq![',']
    }
}

/// A JSON array of already-rendered elements, laid out at the manifest's top
/// level: empty arrays are `[]`, and the pretty form indents each element.
pub open spec fn array_rendered(elems: Seq<Seq<char>>, pretty: bool) -> Seq<char> {
    if elems.len() == 0 {
        seq!['[', ']']
    } else if pretty {
        seq!['['] + line_break(4) + join(elems, array_sep(true)) + line_break(2) + seq![']']
    } else {
        seq!['['] + join(elems, array_sep(false)) + seq![']']
    }
}

/// Rendered form of one member's value.
pub open spec fn field_rendered(f: JsonField, pretty: bool) -> Seq<char> {
    match f {
        JsonField::Text(s) => jstr(s),
        JsonField::Flag(b) => bool_token(b),
        JsonField::Icons(icons) => array_rendered(
            icons.map_values(|i: IconView| icon_rendered(i, pretty)),
            pretty,
        ),
        JsonField::RelatedApps(rs) => array_rendered(
            rs.map_values(|r: RelatedView| related_rendered(r, pretty)),
            pretty,
        ),
    }
}

/// Rendered form of one member: quoted key, colon, value.
pub open spec fn member_rendered(kv: (Seq<char>, JsonField), pretty: bool) -> Seq<char> {
    key_fragment(kv.0, pretty) + field_rendered(kv.1, pretty)
}

/// The given members, rendered and joined with the member separator.
pub open spec fn members_rendered_joined(ms: Seq<(Seq<char>, JsonField)>, pretty: bool) -> Seq<
    char,
> {
    join(ms.map_values(|kv: (Seq<char>, JsonField)| member_rendered(kv, pretty)), member_sep(pretty))
}

/// A single member renders to itself.
pub proof fn lemma_members_single(kv: (Seq<char>, JsonField), pretty: bool)
    ensures
        members_rendered_joined(seq![kv], pretty) == member_rendered(kv, pretty),
{
    let f = |kv: (Seq<char>, JsonField)| member_rendered(kv, pretty);
    assert(seq![kv].map_values(f) =~= seq![member_rendered(kv, pretty)]);
}

/// Rendered form of members that follow the first: each is preceded by the
/// member separator.
pub open spec fn members_tail_rendered(ms: Seq<(Seq<char>, JsonField)>, pretty: bool) -> Seq<
    char,
>
    decreases ms.len(),
{
    if ms.len() == 0 {
        Seq::empty()
    } else {
        member_sep(pretty) + member_rendered(ms[0], pretty) + members_tail_rendered(
            ms.drop_first(),
            pretty,
        )
    }
}

/// Tail rendering distributes over concatenation.
pub proof fn lemma_tail_concat(a: Seq<(Seq<char>, JsonField)>, b: Seq<(Seq<char>, JsonField)>, pretty: bool)
    ensures
        members_tail_rendered(a + b, pretty) == members_tail_rendered(a, pretty)
            + members_tail_rendered(b, pretty),
    decreases a.len(),
{
    if a.len() == 0 {
        assert(a + b =~= b);
        assert(members_tail_rendered(a, pretty) + members_tail_rendered(b, pretty)
            =~= members_tail_rendered(b, pretty));
    } else {
        assert((a + b).drop_first() =~= a.drop_first() + b);
        assert((a + b)[0] == a[0]);
        lemma_tail_concat(a.drop_first(), b, pretty);
        assert(members_tail_rendered(a + b, pretty) =~= members_tail_rendered(a, pretty)
            + members_tail_rendered(b, pretty));
    }
}

/// One trailing member renders to a separator and the member itself.
pub proof fn lemma_tail_single(kv: (Seq<char>, JsonField), pretty: bool)
    ensures
        members_tail_rendered(seq![kv], pretty) == member_sep(pretty) + member_rendered(kv, pretty),
{
    assert(seq![kv].drop_first() =~= Seq::<(Seq<char>, JsonField)>::empty());
    assert(members_tail_rendered(Seq::<(Seq<char>, JsonField)>::empty(), pretty)
        =~= Seq::<char>::empty());
    assert(members_tail_rendered(seq![kv], pretty) =~= member_sep(pretty) + member_rendered(
        kv,
        pretty,
    ));
}

/// A joined member list is its first member followed by the tail rendering of
/// the rest.
pub proof fn lemma_joined_head_tail(ms: Seq<(Seq<char>, JsonField)>, pretty: bool)
    requires
        ms.len() >= 1,
    ensures
        members_rendered_joined(ms, pretty) == member_rendered(ms[0], pretty)
            + members_tail_rendered(ms.drop_first(), pretty),
    decreases ms.len(),
{
    let f = |kv: (Seq<char>, JsonField)| member_rendered(kv, pretty);
    if ms.len() == 1 {
        lemma_members_single(ms[0], pretty);
        assert(ms =~= seq![ms[0]]);
        assert(ms.drop_first() =~= Seq::<(Seq<char>, JsonField)>::empty());
        assert(member_rendered(ms[0], pretty) + members_tail_rendered(ms.drop_first(), pretty)
            =~= member_rendered(ms[0], pretty));
    } else {
        lemma_joined_head_tail(ms.drop_first(), pretty);
        assert(ms.map_values(f)[0] == f(ms[0]));
        assert(ms.map_values(f).drop_first() =~= ms.drop_first().map_values(f));
        assert(members_rendered_joined(ms, pretty) =~= member_rendered(ms[0], pretty)
            + members_tail_rendered(ms.drop_first(), pretty));
    }
}

/// The complete document: the members of [`manifest_members`], rendered and
/// joined inside braces. The compact form has no whitespace between tokens;
/// the pretty form breaks the line after every member and element and indents
/// by two spaces per level.
pub open spec fn manifest_rendered(m: ManifestView, pretty: bool) -> Seq<char> {
    if pretty {
        seq!['{'] + line_break(2) + members_rendered_joined(manifest_members(m), pretty)
            + seq!['\n', '}']
    } else {
        seq!['{'] + members_rendered_joined(manifest_members(m), pretty) + seq!['}']
    }
}

/// The rendered document decomposes into the brace, the `name` member, the
/// tail-rendered optional members, the two array members, and the closing
/// brace.
#[verifier::rlimit(100)]
#[verifier::spinoff_prover]
pub proof fn lemma_manifest_rendered_parts(m: ManifestView, pretty: bool)
    ensures
        manifest_rendered(m, pretty) == (if pretty {
            seq!['{'] + line_break(2)
        } else {
            seq!['{']
        }) + member_rendered(("name"@, JsonField::Text(m.name)), pretty) + members_tail_rendered(
            optional_members(m),
            pretty,
        ) + member_sep(pretty) + member_rendered(("icons"@, JsonField::Icons(m.icons)), pretty)
            + member_sep(pretty) + member_rendered(
            ("related_applications"@, JsonField::RelatedApps(m.related_applications)),
            pretty,
        ) + (if pretty {
            seq!['\n', '}']
        } else {
            seq!['}']
        }),
{
    let ms = manifest_members(m);
    let name_kv = ("name"@, JsonField::Text(m.name));
    let icons_kv = ("icons"@, JsonField::Icons(m.icons));
    let rel_kv = ("related_applications"@, JsonField::RelatedApps(m.related_applications));
    assert(ms[0] == name_kv);
    assert(ms.drop_first() =~= optional_members(m) + seq![icons_kv] + seq![rel_kv]);
    lemma_joined_head_tail(ms, pretty);
    lemma_tail_concat(optional_members(m) + seq![icons_kv], seq![rel_kv], pretty);
    lemma_tail_concat(optional_members(m), seq![icons_kv], pretty);
    lemma_tail_single(icons_kv, pretty);
    lemma_tail_single(rel_kv, pretty);
    if pretty {
        assert(manifest_rendered(m, true) =~= seq!['{'] + line_break(2) + member_rendered(
            name_kv,
            true,
        ) + members_tail_rendered(optional_members(m), true) + member_sep(true) + member_rendered(
            icons_kv,
            true,
        ) + member_sep(true) + member_rendered(rel_kv, true) + seq!['\n', '}']);
    } else {
        assert(manifest_rendered(m, false) =~= seq!['{'] + member_rendered(name_kv, false)
            + members_tail_rendered(optional_members(m), false) + member_sep(false)
            + member_rendered(icons_kv, false) + member_sep(false) + member_rendered(rel_kv, false)
            + seq!['}']);
    }
}

/// The compact document that `build` returns.
pub open spec fn manifest_json(m: ManifestView) -> Seq<char> {
    manifest_rendered(m, false)
}

/// The indented document that `pretty` returns.
pub open spec fn manifest_json_pretty(m: ManifestView) -> Seq<char> {
    manifest_rendered(m, true)
}

/// What separates two consecutive top-level members.
pub open spec fn member_sep(pretty: bool) -> Seq<char> {
    if pretty {
        seq![','] + line_break(2)
    } else {
        seq![',']
    }
}

/// Appends the separator that precedes every top-level member but the first.
pub(crate) fn push_sep(out: &mut String, pretty: bool)
    ensures
        final(out)@ == old(out)@ + member_sep(pretty),
{
    push_char(out, ',');
    if pretty {
        push_line_break(out, 2);
    }
    proof {
        assert(out@ =~= old(out)@ + member_sep(pretty));
    }
}

/// Appends a separator followed by one string-valued member to `out`.
pub(crate) fn push_text_member_sep(out: &mut String, key: &str, v: &str, pretty: bool)
    ensures
        final(out)@ == old(out)@ + member_sep(pretty) + key_fragment(key@, pretty) + jstr(v@),
{
    push_sep(out, pretty);
    push_key(out, key, pretty);
    push_json_string(out, v);
    proof {
        assert(out@ =~= old(out)@ + member_sep(pretty) + key_fragment(key@, pretty) + jstr(v@));
    }
}

/// Appends the rendered icon object to `out`.
pub(crate) fn push_icon(out: &mut String, icon: &Icon, pretty: bool)
    ensures
        final(out)@ == old(out)@ + icon_rendered(icon@, pretty),
{
    push_char(out, '{');
    if pretty {
        push_line_break(out, 6);
    }
    push_key(out, "src", pretty);
    push_json_string(out, icon.src.as_str());
    push_char(out, ',');
    if pretty {
        push_line_break(out, 6);
    }
    push_key(out, "sizes", pretty);
    push_json_string(out, icon.sizes.as_str());
    push_char(out, ',');
    if pretty {
        push_line_break(out, 6);
    }
    push_key(out, "type", pretty);
    push_json_string(out, icon.icon_type.as_str());
    if pretty {
        push_line_break(out, 4);
    }
    push_char(out, '}');
    proof {
        if pretty {
            assert(out@ =~= old(out)@ + icon_rendered(icon@, true));
        } else {
            assert(out@ =~= old(out)@ + icon_rendered(icon@, false));
        }
    }
}

/// Appends the rendered related-application object to `out`.
pub(crate) fn push_related_entry(out: &mut String, r: &Related, pretty: bool)
    ensures
        final(out)@ == old(out)@ + related_rendered(r@, pretty),
{
    push_char(out, '{');
    if pretty {
        push_line_break(out, 6);
    }
    push_key(out, "platform", pretty);
    push_json_string(out, r.platform.as_str());
    push_char(out, ',');
    if pretty {
        push_line_break(out, 6);
    }
    push_key(out, "url", pretty);
    push_json_string(out, r.url.as_str());
    if pretty {
        push_line_break(out, 4);
    }
    push_char(out, '}');
    proof {
        if pretty {
            assert(out@ =~= old(out)@ + related_rendered(r@, true));
        } else {
            assert(out@ =~= old(out)@ + related_rendered(r@, false));
        }
    }
}

/// Appends the rendered `icons` array to `out`.
pub(crate) fn push_icons(out: &mut String, icons: &Vec<Icon>, pretty: bool)
    ensures
        final(out)@ == old(out)@ + field_rendered(
            JsonField::Icons(icons@.map_values(|i: Icon| i@)),
            pretty,
        ),
{
    let ghost views = icons@.map_values(|i: Icon| i@);
    let ghost elems = views.map_values(|iv: IconView| icon_rendered(iv, pretty));
    let ghost sep = if pretty {
        seq![','] + line_break(4)
    } else {
        seq![',']
    };
    push_char(out, '[');
    let n = icons.len();
    if n == 0 {
        push_char(out, ']');
        proof {
            assert(elems.len() == 0);
            assert(out@ =~= old(out)@ + array_rendered(elems, pretty));
        }
        return ;
    }
    if pretty {
        push_line_break(out, 4);
    }
    let ghost opening = if pretty {
        line_break(4)
    } else {
        Seq::<char>::empty()
    };
    push_icon(out, &icons[0], pretty);
    proof {
        assert(elems.subrange(0, 1) =~= seq![elems[0]]);
        assert(out@ =~= old(out)@ + seq!['['] + opening + join(elems.subrange(0, 1), sep));
    }
    let mut k: usize = 1;
    while k < n
        invariant
            1 <= k <= n,
            n == icons.len(),
            elems == icons@.map_values(|i: Icon| i@).map_values(
                |iv: IconView| icon_rendered(iv, pretty),
            ),
            sep == if pretty {
                seq![','] + line_break(4)
            } else {
                seq![',']
            },
            opening == if pretty {
                line_break(4)
            } else {
                Seq::<char>::empty()
            },
            out@ == old(out)@ + seq!['['] + opening + join(elems.subrange(0, k as int), sep),
        decreases n - k,
    {
        push_char(out, ',');
        if pretty {
            push_line_break(out, 4);
        }
        push_icon(out, &icons[k], pretty);
        proof {
            assert(elems[k as int] == icon_rendered(icons@[k as int]@, pretty));
            assert(elems.subrange(0, k + 1) =~= elems.subrange(0, k as int).push(elems[k as int]));
            lemma_join_snoc(elems.subrange(0, k as int), sep, elems[k as int]);
            assert(out@ =~= old(out)@ + seq!['['] + opening + join(elems.subrange(0, k + 1), sep));
        }
        k = k + 1;
    }
    proof {
        assert(elems.subrange(0, n as int) =~= elems);
    }
    if pretty {
        push_line_break(out, 2);
    }
    push_char(out, ']');
    proof {
        if pretty {
            assert(out@ =~= old(out)@ + array_rendered(elems, true));
        } else {
            assert(out@ =~= old(out)@ + array_rendered(elems, false));
        }
    }
}

/// Appends the rendered `related_applications` array to `out`.
pub(crate) fn push_related_list(out: &mut String, rs: &Vec<Related>, pretty: bool)
    ensures
        final(out)@ == old(out)@ + field_rendered(
            JsonField::RelatedApps(rs@.map_values(|r: Related| r@)),
            pretty,
        ),
{
    let ghost views = rs@.map_values(|r: Related| r@);
    let ghost elems = views.map_values(|rv: RelatedView| related_rendered(rv, pretty));
    let ghost sep = if pretty {
        seq![','] + line_break(4)
    } else {
        seq![',']
    };
    push_char(out, '[');
    let n = rs.len();
    if n == 0 {
        push_char(out, ']');
        proof {
            assert(elems.len() == 0);
            assert(out@ =~= old(out)@ + array_rendered(elems, pretty));
        }
        return ;
    }
    if pretty {
        push_line_break(out, 4);
    }
    let ghost opening = if pretty {
        line_break(4)
    } else {
        Seq::<char>::empty()
    };
    push_related_entry(out, &rs[0], pretty);
    proof {
        assert(elems.subrange(0, 1) =~= seq![elems[0]]);
        assert(out@ =~= old(out)@ + seq!['['] + opening + join(elems.subrange(0, 1), sep));
    }
    let mut k: usize = 1;
    while k < n
        invariant
            1 <= k <= n,
            n == rs.len(),
            elems == rs@.map_values(|r: Related| r@).map_values(
                |rv: RelatedView| related_rendered(rv, pretty),
            ),
            sep == if pretty {
                seq![','] + line_break(4)
            } else {
                seq![',']
            },
            opening == if pretty {
                line_break(4)
            } else {
                Seq::<char>::empty()
            },
            out@ == old(out)@ + seq!['['] + opening + join(elems.subrange(0, k as int), sep),
        decreases n - k,
    {
        push_char(out, ',');
        if pretty {
            push_line_break(out, 4);
        }
        push_related_entry(out, &rs[k], pretty);
        proof {
            assert(elems[k as int] == related_rendered(rs@[k as int]@, pretty));
            assert(elems.subrange(0, k + 1) =~= elems.subrange(0, k as int).push(elems[k as int]));
            lemma_join_snoc(elems.subrange(0, k as int), sep, elems[k as int]);
            assert(out@ =~= old(out)@ + seq!['['] + opening + join(elems.subrange(0, k + 1), sep));
        }
        k = k + 1;
    }
    proof {
        assert(elems.subrange(0, n as int) =~= elems);
    }
    if pretty {
        push_line_break(out, 2);
    }
    push_char(out, ']');
    proof {
        if pretty {
            assert(out@ =~= old(out)@ + array_rendered(elems, true));
        } else {
            assert(out@ =~= old(out)@ + array_rendered(elems, false));
        }
    }
}

} // verus!
