//! The relation between the pretty and the compact document: outside of its
//! string literals the pretty form only adds whitespace.
//!
//! [`strip_ws`] scans JSON text, tracking whether the scanner stands outside
//! a string literal, inside one, or right behind an escaping backslash, and
//! drops every space and newline that stands outside. The laws proved here:
//! stripping the rendered document this way always yields the compact
//! document — so the two forms agree on everything but layout — and the
//! compact document holds no newline character at all.

use vstd::prelude::*;

use crate::json::bool_token;
use crate::json::join;
use crate::json::escape_char;
use crate::json::escape_seq;
use crate::json::jstr;
use crate::json::key_fragment;
use crate::json::line_break;
use crate::json::plain_char;
use crate::json::plain_text;
use crate::json::spaces;
use crate::icon::IconView;
use crate::related::RelatedView;
use crate::wire::JsonField;
use crate::wire::array_rendered;
use crate::wire::array_sep;
use crate::wire::field_rendered;
use crate::wire::icon_rendered;
use crate::wire::member_rendered;
use crate::wire::ManifestView;
use crate::wire::direction_member;
use crate::wire::display_member;
use crate::wire::lemma_manifest_rendered_parts;
use crate::wire::lemma_tail_concat;
use crate::wire::lemma_tail_single;
use crate::wire::manifest_json;
use crate::wire::manifest_json_pretty;
use crate::wire::manifest_rendered;
use crate::wire::member_sep;
use crate::wire::members_tail_rendered;
use crate::wire::opt_text_member;
use crate::wire::optional_members;
use crate::wire::optional_members_back;
use crate::wire::optional_members_front;
use crate::wire::orientation_member;
use crate::wire::prefer_member;
use crate::wire::related_rendered;

verus! {

/// Where a scan of JSON text stands: outside a string literal, inside one,
/// or inside one right behind an escaping backslash.
pub ghost enum ScanMode {
    /// Between tokens, outside every string literal.
    Outside,
    /// Inside a string literal.
    Inside,
    /// Inside a string literal, immediately after a backslash.
    Escaped,
}

/// How one character moves the scan: a quote opens or closes a literal, and
/// a backslash inside a literal escapes the character after it.
pub open spec fn scan_step(m: ScanMode, c: char) -> ScanMode {
    match m {
        ScanMode::Outside => if c == '"' {
            ScanMode::Inside
        } else {
            ScanMode::Outside
        },
        ScanMode::Inside => if c == '\\' {
            ScanMode::Escaped
        } else if c == '"' {
            ScanMode::Outside
        } else {
            ScanMode::Inside
        },
        ScanMode::Escaped => ScanMode::Inside,
    }
}

/// The scan mode after reading all of `s`, starting from `m`.
pub open spec fn scan_mode(s: Seq<char>, m: ScanMode) -> ScanMode
    decreases s.len(),
{
    if s.len() == 0 {
        m
    } else {
        scan_mode(s.drop_first(), scan_step(m, s[0]))
    }
}

/// `s` with every space and newline that stands outside a string literal
/// removed; everything inside string literals is kept.
pub open spec fn strip_ws(s: Seq<char>, m: ScanMode) -> Seq<char>
    decreases s.len(),
{
    if s.len() == 0 {
        Seq::empty()
    } else {
        (if m is Outside && (s[0] == ' ' || s[0] == '\n') {
            Seq::<char>::empty()
        } else {
            seq![s[0]]
        }) + strip_ws(s.drop_first(), scan_step(m, s[0]))
    }
}

/// Scanning and stripping distribute over concatenation.
pub proof fn lemma_scan_concat(a: Seq<char>, b: Seq<char>, m: ScanMode)
    ensures
        scan_mode(a + b, m) == scan_mode(b, scan_mode(a, m)),
        strip_ws(a + b, m) == strip_ws(a, m) + strip_ws(b, scan_mode(a, m)),
    decreases a.len(),
{
    if a.len() == 0 {
        assert(a + b =~= b);
        assert(strip_ws(a, m) + strip_ws(b, m) =~= strip_ws(b, m));
    } else {
        assert((a + b).drop_first() =~= a.drop_first() + b);
        assert((a + b)[0] == a[0]);
        lemma_scan_concat(a.drop_first(), b, scan_step(m, a[0]));
        assert(strip_ws(a + b, m) =~= strip_ws(a, m) + strip_ws(b, scan_mode(a, m)));
    }
}

/// Plain text outside a literal is kept in full and leaves the scan outside.
pub proof fn lemma_strip_plain(s: Seq<char>)
    requires
        plain_text(s),
    ensures
        scan_mode(s, ScanMode::Outside) == ScanMode::Outside,
        strip_ws(s, ScanMode::Outside) == s,
    decreases s.len(),
{
    if s.len() == 0 {
        assert(strip_ws(s, ScanMode::Outside) =~= s);
    } else {
        assert(plain_char(s[0]));
        assert(forall|i: int|
            0 <= i < s.drop_first().len() ==> plain_char(#[trigger] s.drop_first()[i]));
        lemma_strip_plain(s.drop_first());
        assert(strip_ws(s, ScanMode::Outside) =~= s);
    }
}

/// A line break and its indentation are dropped entirely.
pub proof fn lemma_strip_line_break(n: nat)
    ensures
        scan_mode(line_break(n), ScanMode::Outside) == ScanMode::Outside,
        strip_ws(line_break(n), ScanMode::Outside) == Seq::<char>::empty(),
{
    lemma_strip_spaces(n);
    lemma_scan_single('\n', ScanMode::Outside);
    lemma_scan_concat(seq!['\n'], spaces(n), ScanMode::Outside);
    assert(strip_ws(line_break(n), ScanMode::Outside) =~= Seq::<char>::empty());
}

/// Indentation spaces are dropped entirely.
proof fn lemma_strip_spaces(n: nat)
    ensures
        scan_mode(spaces(n), ScanMode::Outside) == ScanMode::Outside,
        strip_ws(spaces(n), ScanMode::Outside) == Seq::<char>::empty(),
    decreases n,
{
    if n == 0 {
        assert(strip_ws(spaces(0), ScanMode::Outside) =~= Seq::<char>::empty());
    } else {
        lemma_strip_spaces((n - 1) as nat);
        lemma_scan_single(' ', ScanMode::Outside);
        lemma_scan_concat(spaces((n - 1) as nat), seq![' '], ScanMode::Outside);
        assert(strip_ws(spaces(n), ScanMode::Outside) =~= Seq::<char>::empty());
    }
}

/// Scanning and stripping one character.
proof fn lemma_scan_single(c: char, m: ScanMode)
    ensures
        scan_mode(seq![c], m) == scan_step(m, c),
        strip_ws(seq![c], m) == (if m is Outside && (c == ' ' || c == '\n') {
            Seq::<char>::empty()
        } else {
            seq![c]
        }),
{
    assert(seq![c].drop_first() =~= Seq::<char>::empty());
    assert(scan_mode(Seq::<char>::empty(), scan_step(m, c)) == scan_step(m, c));
    assert(strip_ws(Seq::<char>::empty(), scan_step(m, c)) =~= Seq::<char>::empty());
    assert(strip_ws(seq![c], m) =~= (if m is Outside && (c == ' ' || c == '\n') {
        Seq::<char>::empty()
    } else {
        seq![c]
    }));
}

/// Inside a literal, text without quotes and backslashes is kept in full and
/// leaves the scan inside.
proof fn lemma_strip_inside_clean(s: Seq<char>)
    requires
        forall|i: int| 0 <= i < s.len() ==> s[i] != '"' && s[i] != '\\',
    ensures
        scan_mode(s, ScanMode::Inside) == ScanMode::Inside,
        strip_ws(s, ScanMode::Inside) == s,
    decreases s.len(),
{
    if s.len() == 0 {
        assert(strip_ws(s, ScanMode::Inside) =~= s);
    } else {
        assert(forall|i: int|
            0 <= i < s.drop_first().len() ==> #[trigger] s.drop_first()[i] != '"'
                && s.drop_first()[i] != '\\');
        lemma_strip_inside_clean(s.drop_first());
        assert(strip_ws(s, ScanMode::Inside) =~= s);
    }
}

/// The escaped form of one character is kept in full inside a literal and
/// leaves the scan inside it.
proof fn lemma_strip_escape_char(c: char)
    ensures
        scan_mode(escape_char(c), ScanMode::Inside) == ScanMode::Inside,
        strip_ws(escape_char(c), ScanMode::Inside) == escape_char(c),
{
    let e = escape_char(c);
    if c == '"' || c == '\\' || c == '\n' || c == '\r' || c == '\t' {
        assert(e.len() == 2 && e[0] == '\\');
        lemma_scan_single('\\', ScanMode::Inside);
        lemma_scan_single(e[1], ScanMode::Escaped);
        lemma_scan_concat(seq!['\\'], seq![e[1]], ScanMode::Inside);
        assert(e =~= seq!['\\'] + seq![e[1]]);
        assert(strip_ws(e, ScanMode::Inside) =~= e);
    } else if (c as u32) < 0x20 {
        let h1 = crate::json::hex_digit((c as u32) / 16);
        let h2 = crate::json::hex_digit((c as u32) % 16);
        assert(h1 != '"' && h1 != '\\' && h2 != '"' && h2 != '\\');
        lemma_scan_single('\\', ScanMode::Inside);
        lemma_scan_single('u', ScanMode::Escaped);
        lemma_scan_concat(seq!['\\'], seq!['u'], ScanMode::Inside);
        let rest = seq!['0', '0', h1, h2];
        assert(forall|i: int| 0 <= i < rest.len() ==> rest[i] != '"' && rest[i] != '\\');
        lemma_strip_inside_clean(rest);
        lemma_scan_concat(seq!['\\'] + seq!['u'], rest, ScanMode::Inside);
        assert(e =~= (seq!['\\'] + seq!['u']) + rest);
        assert(strip_ws(seq!['\\'] + seq!['u'], ScanMode::Inside) =~= seq!['\\'] + seq!['u']);
        assert(strip_ws(e, ScanMode::Inside) =~= e);
    } else {
        assert(e =~= seq![c]);
        assert(c != '\\' && c != '"');
        lemma_scan_single(c, ScanMode::Inside);
    }
}

/// An escaped string body is kept in full and leaves the scan inside the
/// literal.
proof fn lemma_strip_escape_seq(s: Seq<char>)
    ensures
        scan_mode(escape_seq(s), ScanMode::Inside) == ScanMode::Inside,
        strip_ws(escape_seq(s), ScanMode::Inside) == escape_seq(s),
    decreases s.len(),
{
    if s.len() == 0 {
        assert(strip_ws(escape_seq(s), ScanMode::Inside) =~= escape_seq(s));
    } else {
        lemma_strip_escape_char(s[0]);
        lemma_strip_escape_seq(s.drop_first());
        lemma_scan_concat(escape_char(s[0]), escape_seq(s.drop_first()), ScanMode::Inside);
    }
}

/// A whole JSON string literal is kept in full, whatever text it holds, and
/// leaves the scan outside.
pub proof fn lemma_strip_jstr(s: Seq<char>)
    ensures
        scan_mode(jstr(s), ScanMode::Outside) == ScanMode::Outside,
        strip_ws(jstr(s), ScanMode::Outside) == jstr(s),
{
    lemma_strip_escape_seq(s);
    lemma_scan_single('"', ScanMode::Outside);
    lemma_scan_single('"', ScanMode::Inside);
    lemma_scan_concat(seq!['"'], escape_seq(s), ScanMode::Outside);
    lemma_scan_concat(seq!['"'] + escape_seq(s), seq!['"'], ScanMode::Outside);
    assert(jstr(s) =~= (seq!['"'] + escape_seq(s)) + seq!['"']);
    assert(strip_ws(jstr(s), ScanMode::Outside) =~= jstr(s));
}

/// `a` leaves a scan that started outside a literal outside again, and
/// strips to exactly `b`.
pub open spec fn strips_to(a: Seq<char>, b: Seq<char>) -> bool {
    scan_mode(a, ScanMode::Outside) == ScanMode::Outside && strip_ws(a, ScanMode::Outside) == b
}

/// Every key of the wire format is plain text.
#[verifier::rlimit(100)]
#[verifier::spinoff_prover]
pub proof fn lemma_keys_plain()
    ensures
        plain_text("name"@),
        plain_text("short_name"@),
        plain_text("start_url"@),
        plain_text("display"@),
        plain_text("background_color"@),
        plain_text("description"@),
        plain_text("dir"@),
        plain_text("orientation"@),
        plain_text("lang"@),
        plain_text("scope"@),
        plain_text("theme_color"@),
        plain_text("prefer_related_applications"@),
        plain_text("icons"@),
        plain_text("related_applications"@),
        plain_text("src"@),
        plain_text("sizes"@),
        plain_text("type"@),
        plain_text("platform"@),
        plain_text("url"@),
{
    reveal_strlit("name");
    assert("name"@ =~= seq!['n', 'a', 'm', 'e']);
    lemma_seq_plain(seq!['n', 'a', 'm', 'e']);
    reveal_strlit("short_name");
    assert("short_name"@ =~= seq!['s', 'h', 'o', 'r', 't', '_', 'n', 'a', 'm', 'e']);
    lemma_seq_plain(seq!['s', 'h', 'o', 'r', 't', '_', 'n', 'a', 'm', 'e']);
    reveal_strlit("start_url");
    assert("start_url"@ =~= seq!['s', 't', 'a', 'r', 't', '_', 'u', 'r', 'l']);
    lemma_seq_plain(seq!['s', 't', 'a', 'r', 't', '_', 'u', 'r', 'l']);
    reveal_strlit("display");
    assert("display"@ =~= seq!['d', 'i', 's', 'p', 'l', 'a', 'y']);
    lemma_seq_plain(seq!['d', 'i', 's', 'p', 'l', 'a', 'y']);
    reveal_strlit("background_color");
    assert("background_color"@ =~= seq![
        'b', 'a', 'c', 'k', 'g', 'r', 'o', 'u', 'n', 'd', '_', 'c', 'o', 'l', 'o', 'r',
    ]);
    lemma_seq_plain(seq![
        'b', 'a', 'c', 'k', 'g', 'r', 'o', 'u', 'n', 'd', '_', 'c', 'o', 'l', 'o', 'r',
    ]);
    reveal_strlit("description");
    assert("description"@ =~= seq!['d', 'e', 's', 'c', 'r', 'i', 'p', 't', 'i', 'o', 'n']);
    lemma_seq_plain(seq!['d', 'e', 's', 'c', 'r', 'i', 'p', 't', 'i', 'o', 'n']);
    reveal_strlit("dir");
    assert("dir"@ =~= seq!['d', 'i', 'r']);
    lemma_seq_plain(seq!['d', 'i', 'r']);
    reveal_strlit("orientation");
    assert("orientation"@ =~= seq!['o', 'r', 'i', 'e', 'n', 't', 'a', 't', 'i', 'o', 'n']);
    lemma_seq_plain(seq!['o', 'r', 'i', 'e', 'n', 't', 'a', 't', 'i', 'o', 'n']);
    reveal_strlit("lang");
    assert("lang"@ =~= seq!['l', 'a', 'n', 'g']);
    lemma_seq_plain(seq!['l', 'a', 'n', 'g']);
    reveal_strlit("scope");
    assert("scope"@ =~= seq!['s', 'c', 'o', 'p', 'e']);
    lemma_seq_plain(seq!['s', 'c', 'o', 'p', 'e']);
    reveal_strlit("theme_color");
    assert("theme_color"@ =~= seq!['t', 'h', 'e', 'm', 'e', '_', 'c', 'o', 'l', 'o', 'r']);
    lemma_seq_plain(seq!['t', 'h', 'e', 'm', 'e', '_', 'c', 'o', 'l', 'o', 'r']);
    reveal_strlit("prefer_related_applications");
    assert("prefer_related_applications"@ =~= seq![
        'p', 'r', 'e', 'f', 'e', 'r', '_', 'r', 'e', 'l', 'a', 't', 'e', 'd', '_', 'a', 'p', 'p',
        'l', 'i', 'c', 'a', 't', 'i', 'o', 'n', 's',
    ]);
    lemma_seq_plain(seq![
        'p', 'r', 'e', 'f', 'e', 'r', '_', 'r', 'e', 'l', 'a', 't', 'e', 'd', '_', 'a', 'p', 'p',
        'l', 'i', 'c', 'a', 't', 'i', 'o', 'n', 's',
    ]);
    reveal_strlit("icons");
    assert("icons"@ =~= seq!['i', 'c', 'o', 'n', 's']);
    lemma_seq_plain(seq!['i', 'c', 'o', 'n', 's']);
    reveal_strlit("related_applications");
    assert("related_applications"@ =~= seq![
        'r', 'e', 'l', 'a', 't', 'e', 'd', '_', 'a', 'p', 'p', 'l', 'i', 'c', 'a', 't', 'i', 'o',
        'n', 's',
    ]);
    lemma_seq_plain(seq![
        'r', 'e', 'l', 'a', 't', 'e', 'd', '_', 'a', 'p', 'p', 'l', 'i', 'c', 'a', 't', 'i', 'o',
        'n', 's',
    ]);
    reveal_strlit("src");
    assert("src"@ =~= seq!['s', 'r', 'c']);
    lemma_seq_plain(seq!['s', 'r', 'c']);
    reveal_strlit("sizes");
    assert("sizes"@ =~= seq!['s', 'i', 'z', 'e', 's']);
    lemma_seq_plain(seq!['s', 'i', 'z', 'e', 's']);
    reveal_strlit("type");
    assert("type"@ =~= seq!['t', 'y', 'p', 'e']);
    lemma_seq_plain(seq!['t', 'y', 'p', 'e']);
    reveal_strlit("platform");
    assert("platform"@ =~= seq!['p', 'l', 'a', 't', 'f', 'o', 'r', 'm']);
    lemma_seq_plain(seq!['p', 'l', 'a', 't', 'f', 'o', 'r', 'm']);
    reveal_strlit("url");
    assert("url"@ =~= seq!['u', 'r', 'l']);
    lemma_seq_plain(seq!['u', 'r', 'l']);
}

/// Plainness of a concrete character sequence, element by element.
proof fn lemma_seq_plain(s: Seq<char>)
    requires
        forall|i: int| 0 <= i < s.len() ==> #[trigger] s[i] != '"' && s[i] != '\\' && s[i] != ' '
            && s[i] != '\n' && s[i] != '\r' && s[i] != '\t' && (s[i] as u32) >= 0x20,
    ensures
        plain_text(s),
{
    assert forall|i: int| 0 <= i < s.len() implies plain_char(#[trigger] s[i]) by {
        assert(s[i] != '"');
    }
}

/// A key fragment strips to its compact form: the trailing space of the
/// pretty form goes, nothing else changes.
pub proof fn lemma_strip_key_fragment(k: Seq<char>, pretty: bool)
    requires
        plain_text(k),
    ensures
        strips_to(key_fragment(k, pretty), key_fragment(k, false)),
{
    lemma_scan_single('"', ScanMode::Outside);
    lemma_scan_single('"', ScanMode::Inside);
    lemma_scan_single(':', ScanMode::Outside);
    assert(forall|i: int| 0 <= i < k.len() ==> k[i] != '"' && k[i] != '\\') by {
        assert(forall|i: int| 0 <= i < k.len() ==> plain_char(#[trigger] k[i]));
    }
    lemma_strip_inside_clean(k);
    lemma_scan_concat(seq!['"'], k, ScanMode::Outside);
    assert(seq!['"', ':'] =~= seq!['"'] + seq![':']);
    lemma_scan_concat(seq!['"'], seq![':'], ScanMode::Inside);
    lemma_scan_concat(seq!['"'] + k, seq!['"', ':'], ScanMode::Outside);
    if pretty {
        lemma_scan_single(' ', ScanMode::Outside);
        lemma_scan_concat((seq!['"'] + k) + seq!['"', ':'], seq![' '], ScanMode::Outside);
        assert(key_fragment(k, true) =~= ((seq!['"'] + k) + seq!['"', ':']) + seq![' ']);
        assert(strip_ws(key_fragment(k, true), ScanMode::Outside) =~= key_fragment(k, false));
    } else {
        assert(key_fragment(k, false) =~= (seq!['"'] + k) + seq!['"', ':']);
        assert(strip_ws(key_fragment(k, false), ScanMode::Outside) =~= key_fragment(k, false));
    }
}

/// The member separator strips to a bare comma.
pub proof fn lemma_strip_member_sep(pretty: bool)
    ensures
        strips_to(member_sep(pretty), member_sep(false)),
{
    lemma_scan_single(',', ScanMode::Outside);
    if pretty {
        lemma_strip_line_break(2);
        lemma_scan_concat(seq![','], line_break(2), ScanMode::Outside);
        assert(strip_ws(member_sep(true), ScanMode::Outside) =~= member_sep(false));
    } else {
        assert(member_sep(false) =~= seq![',']);
    }
}

/// A boolean token is kept in full.
pub proof fn lemma_strip_bool(b: bool)
    ensures
        strips_to(bool_token(b), bool_token(b)),
{
    lemma_seq_plain(bool_token(b));
    lemma_strip_plain(bool_token(b));
}

/// Fragments that strip outside a literal compose.
pub proof fn lemma_strips_to_concat(a: Seq<char>, b: Seq<char>, sa: Seq<char>, sb: Seq<char>)
    requires
        strips_to(a, sa),
        strips_to(b, sb),
    ensures
        strips_to(a + b, sa + sb),
{
    lemma_scan_concat(a, b, ScanMode::Outside);
}

/// A rendered icon object strips to its compact rendering.
#[verifier::rlimit(100)]
#[verifier::spinoff_prover]
proof fn lemma_strip_icon(i: IconView, pretty: bool)
    ensures
        strips_to(icon_rendered(i, pretty), icon_rendered(i, false)),
{
    lemma_keys_plain();
    lemma_seq_plain(seq!['{']);
    lemma_strip_plain(seq!['{']);
    lemma_seq_plain(seq![',']);
    lemma_strip_plain(seq![',']);
    lemma_seq_plain(seq!['}']);
    lemma_strip_plain(seq!['}']);
    lemma_strip_key_fragment("src"@, pretty);
    lemma_strip_key_fragment("sizes"@, pretty);
    lemma_strip_key_fragment("type"@, pretty);
    lemma_strip_jstr(i.src);
    lemma_strip_jstr(i.sizes);
    lemma_strip_jstr(i.icon_type);
    if pretty {
        lemma_strip_line_break(6);
        lemma_strip_line_break(4);
        let p1 = seq!['{'];
        let c1 = seq!['{'];
        let p2 = p1 + line_break(6);
        let c2 = c1 + Seq::<char>::empty();
        lemma_strips_to_concat(p1, line_break(6), c1, Seq::<char>::empty());
        let p3 = p2 + key_fragment("src"@, true);
        let c3 = c2 + key_fragment("src"@, false);
        lemma_strips_to_concat(p2, key_fragment("src"@, true), c2, key_fragment("src"@, false));
        let p4 = p3 + jstr(i.src);
        let c4 = c3 + jstr(i.src);
        lemma_strips_to_concat(p3, jstr(i.src), c3, jstr(i.src));
        let p5 = p4 + seq![','];
        let c5 = c4 + seq![','];
        lemma_strips_to_concat(p4, seq![','], c4, seq![',']);
        let p6 = p5 + line_break(6);
        let c6 = c5 + Seq::<char>::empty();
        lemma_strips_to_concat(p5, line_break(6), c5, Seq::<char>::empty());
        let p7 = p6 + key_fragment("sizes"@, true);
        let c7 = c6 + key_fragment("sizes"@, false);
        lemma_strips_to_concat(p6, key_fragment("sizes"@, true), c6, key_fragment("sizes"@, false));
        let p8 = p7 + jstr(i.sizes);
        let c8 = c7 + jstr(i.sizes);
        lemma_strips_to_concat(p7, jstr(i.sizes), c7, jstr(i.sizes));
        let p9 = p8 + seq![','];
        let c9 = c8 + seq![','];
        lemma_strips_to_concat(p8, seq![','], c8, seq![',']);
        let p10 = p9 + line_break(6);
        let c10 = c9 + Seq::<char>::empty();
        lemma_strips_to_concat(p9, line_break(6), c9, Seq::<char>::empty());
        let p11 = p10 + key_fragment("type"@, true);
        let c11 = c10 + key_fragment("type"@, false);
        lemma_strips_to_concat(p10, key_fragment("type"@, true), c10, key_fragment("type"@, false));
        let p12 = p11 + jstr(i.icon_type);
        let c12 = c11 + jstr(i.icon_type);
        lemma_strips_to_concat(p11, jstr(i.icon_type), c11, jstr(i.icon_type));
        let p13 = p12 + line_break(4);
        let c13 = c12 + Seq::<char>::empty();
        lemma_strips_to_concat(p12, line_break(4), c12, Seq::<char>::empty());
        let p14 = p13 + seq!['}'];
        let c14 = c13 + seq!['}'];
        lemma_strips_to_concat(p13, seq!['}'], c13, seq!['}']);
        assert(p14 =~= icon_rendered(i, true));
        assert(c14 =~= icon_rendered(i, false));
    } else {
        let p1 = seq!['{'];
        let p3 = p1 + key_fragment("src"@, false);
        lemma_strips_to_concat(p1, key_fragment("src"@, false), p1, key_fragment("src"@, false));
        let p4 = p3 + jstr(i.src);
        lemma_strips_to_concat(p3, jstr(i.src), p3, jstr(i.src));
        let p5 = p4 + seq![','];
        lemma_strips_to_concat(p4, seq![','], p4, seq![',']);
        let p7 = p5 + key_fragment("sizes"@, false);
        lemma_strips_to_concat(p5, key_fragment("sizes"@, false), p5, key_fragment("sizes"@, false));
        let p8 = p7 + jstr(i.sizes);
        lemma_strips_to_concat(p7, jstr(i.sizes), p7, jstr(i.sizes));
        let p9 = p8 + seq![','];
        lemma_strips_to_concat(p8, seq![','], p8, seq![',']);
        let p11 = p9 + key_fragment("type"@, false);
        lemma_strips_to_concat(p9, key_fragment("type"@, false), p9, key_fragment("type"@, false));
        let p12 = p11 + jstr(i.icon_type);
        lemma_strips_to_concat(p11, jstr(i.icon_type), p11, jstr(i.icon_type));
        let p14 = p12 + seq!['}'];
        lemma_strips_to_concat(p12, seq!['}'], p12, seq!['}']);
        assert(p14 =~= icon_rendered(i, false));
    }
}

/// A rendered related-application object strips to its compact rendering.
#[verifier::rlimit(100)]
#[verifier::spinoff_prover]
proof fn lemma_strip_related(r: RelatedView, pretty: bool)
    ensures
        strips_to(related_rendered(r, pretty), related_rendered(r, false)),
{
    lemma_keys_plain();
    lemma_seq_plain(seq!['{']);
    lemma_strip_plain(seq!['{']);
    lemma_seq_plain(seq![',']);
    lemma_strip_plain(seq![',']);
    lemma_seq_plain(seq!['}']);
    lemma_strip_plain(seq!['}']);
    lemma_strip_key_fragment("platform"@, pretty);
    lemma_strip_key_fragment("url"@, pretty);
    lemma_strip_jstr(r.platform);
    lemma_strip_jstr(r.url);
    if pretty {
        lemma_strip_line_break(6);
        lemma_strip_line_break(4);
        let p1 = seq!['{'];
        let c1 = seq!['{'];
        let p2 = p1 + line_break(6);
        let c2 = c1 + Seq::<char>::empty();
        lemma_strips_to_concat(p1, line_break(6), c1, Seq::<char>::empty());
        let p3 = p2 + key_fragment("platform"@, true);
        let c3 = c2 + key_fragment("platform"@, false);
        lemma_strips_to_concat(
            p2,
            key_fragment("platform"@, true),
            c2,
            key_fragment("platform"@, false),
        );
        let p4 = p3 + jstr(r.platform);
        let c4 = c3 + jstr(r.platform);
        lemma_strips_to_concat(p3, jstr(r.platform), c3, jstr(r.platform));
        let p5 = p4 + seq![','];
        let c5 = c4 + seq![','];
        lemma_strips_to_concat(p4, seq![','], c4, seq![',']);
        let p6 = p5 + line_break(6);
        let c6 = c5 + Seq::<char>::empty();
        lemma_strips_to_concat(p5, line_break(6), c5, Seq::<char>::empty());
        let p7 = p6 + key_fragment("url"@, true);
        let c7 = c6 + key_fragment("url"@, false);
        lemma_strips_to_concat(p6, key_fragment("url"@, true), c6, key_fragment("url"@, false));
        let p8 = p7 + jstr(r.url);
        let c8 = c7 + jstr(r.url);
        lemma_strips_to_concat(p7, jstr(r.url), c7, jstr(r.url));
        let p9 = p8 + line_break(4);
        let c9 = c8 + Seq::<char>::empty();
        lemma_strips_to_concat(p8, line_break(4), c8, Seq::<char>::empty());
        let p10 = p9 + seq!['}'];
        let c10 = c9 + seq!['}'];
        lemma_strips_to_concat(p9, seq!['}'], c9, seq!['}']);
        assert(p10 =~= related_rendered(r, true));
        assert(c10 =~= related_rendered(r, false));
    } else {
        let p1 = seq!['{'];
        let p3 = p1 + key_fragment("platform"@, false);
        lemma_strips_to_concat(
            p1,
            key_fragment("platform"@, false),
            p1,
            key_fragment("platform"@, false),
        );
        let p4 = p3 + jstr(r.platform);
        lemma_strips_to_concat(p3, jstr(r.platform), p3, jstr(r.platform));
        let p5 = p4 + seq![','];
        lemma_strips_to_concat(p4, seq![','], p4, seq![',']);
        let p7 = p5 + key_fragment("url"@, false);
        lemma_strips_to_concat(p5, key_fragment("url"@, false), p5, key_fragment("url"@, false));
        let p8 = p7 + jstr(r.url);
        lemma_strips_to_concat(p7, jstr(r.url), p7, jstr(r.url));
        let p10 = p8 + seq!['}'];
        lemma_strips_to_concat(p8, seq!['}'], p8, seq!['}']);
        assert(p10 =~= related_rendered(r, false));
    }
}

/// The array element separator strips to a bare comma.
proof fn lemma_strip_array_sep(pretty: bool)
    ensures
        strips_to(array_sep(pretty), array_sep(false)),
{
    lemma_scan_single(',', ScanMode::Outside);
    if pretty {
        lemma_strip_line_break(4);
        lemma_scan_concat(seq![','], line_break(4), ScanMode::Outside);
        assert(strip_ws(array_sep(true), ScanMode::Outside) =~= array_sep(false));
    } else {
        assert(array_sep(false) =~= seq![',']);
    }
}

/// The joined icon elements strip to their compact join, element by element.
proof fn lemma_strip_icons_join(icons: Seq<IconView>, pretty: bool)
    requires
        icons.len() >= 1,
    ensures
        strips_to(
            join(icons.map_values(|iv: IconView| icon_rendered(iv, pretty)), array_sep(pretty)),
            join(icons.map_values(|iv: IconView| icon_rendered(iv, false)), array_sep(false)),
        ),
    decreases icons.len(),
{
    let ep = icons.map_values(|iv: IconView| icon_rendered(iv, pretty));
    let ec = icons.map_values(|iv: IconView| icon_rendered(iv, false));
    lemma_strip_icon(icons[0], pretty);
    if icons.len() == 1 {
        assert(join(ep, array_sep(pretty)) == ep[0]);
        assert(join(ec, array_sep(false)) == ec[0]);
    } else {
        lemma_strip_icons_join(icons.drop_first(), pretty);
        assert(ep.drop_first() =~= icons.drop_first().map_values(
            |iv: IconView| icon_rendered(iv, pretty),
        ));
        assert(ec.drop_first() =~= icons.drop_first().map_values(
            |iv: IconView| icon_rendered(iv, false),
        ));
        lemma_strip_array_sep(pretty);
        lemma_strips_to_concat(ep[0], array_sep(pretty), ec[0], array_sep(false));
        lemma_strips_to_concat(
            ep[0] + array_sep(pretty),
            join(ep.drop_first(), array_sep(pretty)),
            ec[0] + array_sep(false),
            join(ec.drop_first(), array_sep(false)),
        );
        assert(join(ep, array_sep(pretty)) == ep[0] + array_sep(pretty) + join(
            ep.drop_first(),
            array_sep(pretty),
        ));
        assert((ep[0] + array_sep(pretty)) + join(ep.drop_first(), array_sep(pretty)) =~= join(
            ep,
            array_sep(pretty),
        ));
        assert((ec[0] + array_sep(false)) + join(ec.drop_first(), array_sep(false)) =~= join(
            ec,
            array_sep(false),
        ));
    }
}

/// The joined related elements strip to their compact join.
proof fn lemma_strip_related_join(rs: Seq<RelatedView>, pretty: bool)
    requires
        rs.len() >= 1,
    ensures
        strips_to(
            join(rs.map_values(|rv: RelatedView| related_rendered(rv, pretty)), array_sep(pretty)),
            join(rs.map_values(|rv: RelatedView| related_rendered(rv, false)), array_sep(false)),
        ),
    decreases rs.len(),
{
    let ep = rs.map_values(|rv: RelatedView| related_rendered(rv, pretty));
    let ec = rs.map_values(|rv: RelatedView| related_rendered(rv, false));
    lemma_strip_related(rs[0], pretty);
    if rs.len() == 1 {
        assert(join(ep, array_sep(pretty)) == ep[0]);
        assert(join(ec, array_sep(false)) == ec[0]);
    } else {
        lemma_strip_related_join(rs.drop_first(), pretty);
        assert(ep.drop_first() =~= rs.drop_first().map_values(
            |rv: RelatedView| related_rendered(rv, pretty),
        ));
        assert(ec.drop_first() =~= rs.drop_first().map_values(
            |rv: RelatedView| related_rendered(rv, false),
        ));
        lemma_strip_array_sep(pretty);
        lemma_strips_to_concat(ep[0], array_sep(pretty), ec[0], array_sep(false));
        lemma_strips_to_concat(
            ep[0] + array_sep(pretty),
            join(ep.drop_first(), array_sep(pretty)),
            ec[0] + array_sep(false),
            join(ec.drop_first(), array_sep(false)),
        );
        assert((ep[0] + array_sep(pretty)) + join(ep.drop_first(), array_sep(pretty)) =~= join(
            ep,
            array_sep(pretty),
        ));
        assert((ec[0] + array_sep(false)) + join(ec.drop_first(), array_sep(false)) =~= join(
            ec,
            array_sep(false),
        ));
    }
}

/// A rendered member value strips to its compact rendering, whatever field it
/// holds.
proof fn lemma_strip_field(f: JsonField, pretty: bool)
    ensures
        strips_to(field_rendered(f, pretty), field_rendered(f, false)),
{
    lemma_seq_plain(seq!['[', ']']);
    lemma_strip_plain(seq!['[', ']']);
    lemma_seq_plain(seq!['[']);
    lemma_strip_plain(seq!['[']);
    lemma_seq_plain(seq![']']);
    lemma_strip_plain(seq![']']);
    match f {
        JsonField::Text(s) => {
            lemma_strip_jstr(s);
        },
        JsonField::Flag(b) => {
            lemma_strip_bool(b);
        },
        JsonField::Icons(icons) => {
            let ep = icons.map_values(|iv: IconView| icon_rendered(iv, pretty));
            let ec = icons.map_values(|iv: IconView| icon_rendered(iv, false));
            if icons.len() == 0 {
                assert(array_rendered(ep, pretty) =~= seq!['[', ']']);
                assert(array_rendered(ec, false) =~= seq!['[', ']']);
            } else {
                lemma_strip_icons_join(icons, pretty);
                if pretty {
                    lemma_strip_line_break(4);
                    lemma_strip_line_break(2);
                    let p2 = seq!['['] + line_break(4);
                    let c2 = seq!['['] + Seq::<char>::empty();
                    lemma_strips_to_concat(seq!['['], line_break(4), seq!['['], Seq::<char>::empty());
                    let p3 = p2 + join(ep, array_sep(true));
                    let c3 = c2 + join(ec, array_sep(false));
                    lemma_strips_to_concat(
                        p2,
                        join(ep, array_sep(true)),
                        c2,
                        join(ec, array_sep(false)),
                    );
                    let p4 = p3 + line_break(2);
                    let c4 = c3 + Seq::<char>::empty();
                    lemma_strips_to_concat(p3, line_break(2), c3, Seq::<char>::empty());
                    let p5 = p4 + seq![']'];
                    let c5 = c4 + seq![']'];
                    lemma_strips_to_concat(p4, seq![']'], c4, seq![']']);
                    assert(p5 =~= array_rendered(ep, true));
                    assert(c5 =~= array_rendered(ec, false));
                } else {
                    let p3 = seq!['['] + join(ec, array_sep(false));
                    lemma_strips_to_concat(
                        seq!['['],
                        join(ec, array_sep(false)),
                        seq!['['],
                        join(ec, array_sep(false)),
                    );
                    let p5 = p3 + seq![']'];
                    lemma_strips_to_concat(p3, seq![']'], p3, seq![']']);
                    assert(p5 =~= array_rendered(ec, false));
                }
            }
        },
        JsonField::RelatedApps(rs) => {
            let ep = rs.map_values(|rv: RelatedView| related_rendered(rv, pretty));
            let ec = rs.map_values(|rv: RelatedView| related_rendered(rv, false));
            if rs.len() == 0 {
                assert(array_rendered(ep, pretty) =~= seq!['[', ']']);
                assert(array_rendered(ec, false) =~= seq!['[', ']']);
            } else {
                lemma_strip_related_join(rs, pretty);
                if pretty {
                    lemma_strip_line_break(4);
                    lemma_strip_line_break(2);
                    let p2 = seq!['['] + line_break(4);
                    let c2 = seq!['['] + Seq::<char>::empty();
                    lemma_strips_to_concat(seq!['['], line_break(4), seq!['['], Seq::<char>::empty());
                    let p3 = p2 + join(ep, array_sep(true));
                    let c3 = c2 + join(ec, array_sep(false));
                    lemma_strips_to_concat(
                        p2,
                        join(ep, array_sep(true)),
                        c2,
                        join(ec, array_sep(false)),
                    );
                    let p4 = p3 + line_break(2);
                    let c4 = c3 + Seq::<char>::empty();
                    lemma_strips_to_concat(p3, line_break(2), c3, Seq::<char>::empty());
                    let p5 = p4 + seq![']'];
                    let c5 = c4 + seq![']'];
                    lemma_strips_to_concat(p4, seq![']'], c4, seq![']']);
                    assert(p5 =~= array_rendered(ep, true));
                    assert(c5 =~= array_rendered(ec, false));
                } else {
                    let p3 = seq!['['] + join(ec, array_sep(false));
                    lemma_strips_to_concat(
                        seq!['['],
                        join(ec, array_sep(false)),
                        seq!['['],
                        join(ec, array_sep(false)),
                    );
                    let p5 = p3 + seq![']'];
                    lemma_strips_to_concat(p3, seq![']'], p3, seq![']']);
                    assert(p5 =~= array_rendered(ec, false));
                }
            }
        },
    }
}

/// A rendered member strips to its compact rendering, provided its key is
/// plain text — which every key of the wire format is.
proof fn lemma_strip_member(kv: (Seq<char>, JsonField), pretty: bool)
    requires
        plain_text(kv.0),
    ensures
        strips_to(member_rendered(kv, pretty), member_rendered(kv, false)),
{
    lemma_strip_key_fragment(kv.0, pretty);
    lemma_strip_field(kv.1, pretty);
    lemma_strips_to_concat(
        key_fragment(kv.0, pretty),
        field_rendered(kv.1, pretty),
        key_fragment(kv.0, false),
        field_rendered(kv.1, false),
    );
}

/// The tail rendering of one member group — empty, or one member with a
/// plain key — strips to its compact tail rendering.
proof fn lemma_strip_group_tail(g: Seq<(Seq<char>, JsonField)>, pretty: bool)
    requires
        g.len() <= 1,
        g.len() == 1 ==> plain_text(g[0].0),
    ensures
        strips_to(members_tail_rendered(g, pretty), members_tail_rendered(g, false)),
{
    if g.len() == 0 {
        assert(members_tail_rendered(g, pretty) =~= Seq::<char>::empty());
        assert(members_tail_rendered(g, false) =~= Seq::<char>::empty());
        assert(strip_ws(Seq::<char>::empty(), ScanMode::Outside) =~= Seq::<char>::empty());
    } else {
        assert(g =~= seq![g[0]]);
        lemma_tail_single(g[0], pretty);
        lemma_tail_single(g[0], false);
        lemma_strip_member_sep(pretty);
        lemma_strip_member(g[0], pretty);
        lemma_strips_to_concat(
            member_sep(pretty),
            member_rendered(g[0], pretty),
            member_sep(false),
            member_rendered(g[0], false),
        );
    }
}

/// The tail rendering of all optional members strips to its compact form.
#[verifier::rlimit(100)]
#[verifier::spinoff_prover]
proof fn lemma_strip_optional_tail(m: ManifestView, pretty: bool)
    ensures
        strips_to(
            members_tail_rendered(optional_members(m), pretty),
            members_tail_rendered(optional_members(m), false),
        ),
{
    lemma_keys_plain();
    let g1 = opt_text_member("short_name"@, m.short_name);
    let g2 = opt_text_member("start_url"@, m.start_url);
    let g3 = display_member(m.display_mode);
    let g4 = opt_text_member("background_color"@, m.background_color);
    let g5 = opt_text_member("description"@, m.description);
    let g6 = direction_member(m.direction);
    let g7 = orientation_member(m.orientation);
    let g8 = opt_text_member("lang"@, m.lang);
    let g9 = opt_text_member("scope"@, m.scope);
    let g10 = opt_text_member("theme_color"@, m.theme_color);
    let g11 = prefer_member(m.prefer_related_applications);
    lemma_strip_group_tail(g1, pretty);
    lemma_strip_group_tail(g2, pretty);
    lemma_strip_group_tail(g3, pretty);
    lemma_strip_group_tail(g4, pretty);
    lemma_strip_group_tail(g5, pretty);
    lemma_strip_group_tail(g6, pretty);
    lemma_strip_group_tail(g7, pretty);
    lemma_strip_group_tail(g8, pretty);
    lemma_strip_group_tail(g9, pretty);
    lemma_strip_group_tail(g10, pretty);
    lemma_strip_group_tail(g11, pretty);
    lemma_tail_concat(g1, g2, pretty);
    lemma_tail_concat(g1, g2, false);
    lemma_strips_to_concat(
        members_tail_rendered(g1, pretty),
        members_tail_rendered(g2, pretty),
        members_tail_rendered(g1, false),
        members_tail_rendered(g2, false),
    );
    lemma_tail_concat(g1 + g2, g3, pretty);
    lemma_tail_concat(g1 + g2, g3, false);
    lemma_strips_to_concat(
        members_tail_rendered(g1 + g2, pretty),
        members_tail_rendered(g3, pretty),
        members_tail_rendered(g1 + g2, false),
        members_tail_rendered(g3, false),
    );
    lemma_tail_concat(g1 + g2 + g3, g4, pretty);
    lemma_tail_concat(g1 + g2 + g3, g4, false);
    lemma_strips_to_concat(
        members_tail_rendered(g1 + g2 + g3, pretty),
        members_tail_rendered(g4, pretty),
        members_tail_rendered(g1 + g2 + g3, false),
        members_tail_rendered(g4, false),
    );
    lemma_tail_concat(g1 + g2 + g3 + g4, g5, pretty);
    lemma_tail_concat(g1 + g2 + g3 + g4, g5, false);
    lemma_strips_to_concat(
        members_tail_rendered(g1 + g2 + g3 + g4, pretty),
        members_tail_rendered(g5, pretty),
        members_tail_rendered(g1 + g2 + g3 + g4, false),
        members_tail_rendered(g5, false),
    );
    assert(optional_members_front(m) == g1 + g2 + g3 + g4 + g5);
    lemma_tail_concat(g6, g7, pretty);
    lemma_tail_concat(g6, g7, false);
    lemma_strips_to_concat(
        members_tail_rendered(g6, pretty),
        members_tail_rendered(g7, pretty),
        members_tail_rendered(g6, false),
        members_tail_rendered(g7, false),
    );
    lemma_tail_concat(g6 + g7, g8, pretty);
    lemma_tail_concat(g6 + g7, g8, false);
    lemma_strips_to_concat(
        members_tail_rendered(g6 + g7, pretty),
        members_tail_rendered(g8, pretty),
        members_tail_rendered(g6 + g7, false),
        members_tail_rendered(g8, false),
    );
    lemma_tail_concat(g6 + g7 + g8, g9, pretty);
    lemma_tail_concat(g6 + g7 + g8, g9, false);
    lemma_strips_to_concat(
        members_tail_rendered(g6 + g7 + g8, pretty),
        members_tail_rendered(g9, pretty),
        members_tail_rendered(g6 + g7 + g8, false),
        members_tail_rendered(g9, false),
    );
    lemma_tail_concat(g6 + g7 + g8 + g9, g10, pretty);
    lemma_tail_concat(g6 + g7 + g8 + g9, g10, false);
    lemma_strips_to_concat(
        members_tail_rendered(g6 + g7 + g8 + g9, pretty),
        members_tail_rendered(g10, pretty),
        members_tail_rendered(g6 + g7 + g8 + g9, false),
        members_tail_rendered(g10, false),
    );
    lemma_tail_concat(g6 + g7 + g8 + g9 + g10, g11, pretty);
    lemma_tail_concat(g6 + g7 + g8 + g9 + g10, g11, false);
    lemma_strips_to_concat(
        members_tail_rendered(g6 + g7 + g8 + g9 + g10, pretty),
        members_tail_rendered(g11, pretty),
        members_tail_rendered(g6 + g7 + g8 + g9 + g10, false),
        members_tail_rendered(g11, false),
    );
    assert(optional_members_back(m) == g6 + g7 + g8 + g9 + g10 + g11);
    lemma_tail_concat(optional_members_front(m), optional_members_back(m), pretty);
    lemma_tail_concat(optional_members_front(m), optional_members_back(m), false);
    lemma_strips_to_concat(
        members_tail_rendered(optional_members_front(m), pretty),
        members_tail_rendered(optional_members_back(m), pretty),
        members_tail_rendered(optional_members_front(m), false),
        members_tail_rendered(optional_members_back(m), false),
    );
}

/// Stripping the whitespace that stands outside string literals from a
/// rendered document yields exactly the compact document. In particular the
/// indented and the compact form agree on everything but layout, and the
/// compact form carries no layout whitespace at all.
#[verifier::rlimit(100)]
#[verifier::spinoff_prover]
pub proof fn lemma_strip_normalizes(m: ManifestView, pretty: bool)
    ensures
        strip_ws(manifest_rendered(m, pretty), ScanMode::Outside) == manifest_json(m),
{
    lemma_manifest_rendered_parts(m, pretty);
    lemma_manifest_rendered_parts(m, false);
    lemma_keys_plain();
    let name_kv = ("name"@, JsonField::Text(m.name));
    let icons_kv = ("icons"@, JsonField::Icons(m.icons));
    let rel_kv = ("related_applications"@, JsonField::RelatedApps(m.related_applications));
    lemma_seq_plain(seq!['{']);
    lemma_strip_plain(seq!['{']);
    lemma_seq_plain(seq!['}']);
    lemma_strip_plain(seq!['}']);
    lemma_strip_member(name_kv, pretty);
    lemma_strip_member(icons_kv, pretty);
    lemma_strip_member(rel_kv, pretty);
    lemma_strip_member_sep(pretty);
    lemma_strip_optional_tail(m, pretty);
    let pa = if pretty {
        seq!['{'] + line_break(2)
    } else {
        seq!['{']
    };
    let ca = seq!['{'];
    if pretty {
        lemma_strip_line_break(2);
        lemma_strips_to_concat(seq!['{'], line_break(2), seq!['{'], Seq::<char>::empty());
        assert(strip_ws(pa, ScanMode::Outside) =~= ca);
    }
    let p2 = pa + member_rendered(name_kv, pretty);
    let c2 = strip_ws(pa, ScanMode::Outside) + member_rendered(name_kv, false);
    lemma_strips_to_concat(
        pa,
        member_rendered(name_kv, pretty),
        strip_ws(pa, ScanMode::Outside),
        member_rendered(name_kv, false),
    );
    let p3 = p2 + members_tail_rendered(optional_members(m), pretty);
    let c3 = c2 + members_tail_rendered(optional_members(m), false);
    lemma_strips_to_concat(
        p2,
        members_tail_rendered(optional_members(m), pretty),
        c2,
        members_tail_rendered(optional_members(m), false),
    );
    let p4 = p3 + member_sep(pretty);
    let c4 = c3 + member_sep(false);
    lemma_strips_to_concat(p3, member_sep(pretty), c3, member_sep(false));
    let p5 = p4 + member_rendered(icons_kv, pretty);
    let c5 = c4 + member_rendered(icons_kv, false);
    lemma_strips_to_concat(
        p4,
        member_rendered(icons_kv, pretty),
        c4,
        member_rendered(icons_kv, false),
    );
    let p6 = p5 + member_sep(pretty);
    let c6 = c5 + member_sep(false);
    lemma_strips_to_concat(p5, member_sep(pretty), c5, member_sep(false));
    let p7 = p6 + member_rendered(rel_kv, pretty);
    let c7 = c6 + member_rendered(rel_kv, false);
    lemma_strips_to_concat(
        p6,
        member_rendered(rel_kv, pretty),
        c6,
        member_rendered(rel_kv, false),
    );
    let pz = if pretty {
        seq!['\n', '}']
    } else {
        seq!['}']
    };
    if pretty {
        lemma_scan_single('\n', ScanMode::Outside);
        lemma_scan_concat(seq!['\n'], seq!['}'], ScanMode::Outside);
        assert(pz =~= seq!['\n'] + seq!['}']);
        assert(strip_ws(pz, ScanMode::Outside) =~= seq!['}']);
    }
    let p8 = p7 + pz;
    let c8 = c7 + seq!['}'];
    lemma_strips_to_concat(p7, pz, c7, seq!['}']);
    assert(p8 =~= manifest_rendered(m, pretty));
    assert(c8 =~= manifest_rendered(m, false));
}

/// The indented document, stripped of the whitespace outside its string
/// literals, is exactly the compact document: `pretty` and `build` agree on
/// everything but layout.
pub proof fn lemma_pretty_strips_to_compact(m: ManifestView)
    ensures
        strip_ws(manifest_json_pretty(m), ScanMode::Outside) == manifest_json(m),
{
    lemma_strip_normalizes(m, true);
}

/// The compact document carries no whitespace outside its string literals:
/// stripping leaves it unchanged.
pub proof fn lemma_compact_free_of_layout_whitespace(m: ManifestView)
    ensures
        strip_ws(manifest_json(m), ScanMode::Outside) == manifest_json(m),
{
    lemma_strip_normalizes(m, false);
}

/// The indented document does break lines: its second character is already a
/// newline.
pub proof fn lemma_pretty_has_line_breaks(m: ManifestView)
    ensures
        manifest_json_pretty(m).len() > 1,
        manifest_json_pretty(m)[1] == '\n',
{
    assert(line_break(2)[0] == '\n');
    assert((seq!['{'] + line_break(2))[1] == '\n');
}

/// Text without any newline character.
pub open spec fn newline_free(s: Seq<char>) -> bool {
    forall|i: int| 0 <= i < s.len() ==> #[trigger] s[i] != '\n'
}

/// Newline-freedom composes over concatenation.
proof fn lemma_nf_concat(a: Seq<char>, b: Seq<char>)
    requires
        newline_free(a),
        newline_free(b),
    ensures
        newline_free(a + b),
{
    assert forall|i: int| 0 <= i < (a + b).len() implies #[trigger] (a + b)[i] != '\n' by {
        if i < a.len() {
            assert(a[i] != '\n');
        } else {
            assert(b[i - a.len()] != '\n');
        }
    }
}

/// Plain text holds no newline.
proof fn lemma_nf_plain(s: Seq<char>)
    requires
        plain_text(s),
    ensures
        newline_free(s),
{
    assert forall|i: int| 0 <= i < s.len() implies #[trigger] s[i] != '\n' by {
        assert(plain_char(s[i]));
    }
}

/// The escaped form of any character holds no newline: a literal newline
/// leaves as `\n`, two plain characters.
proof fn lemma_nf_escape_char(c: char)
    ensures
        newline_free(escape_char(c)),
{
    let e = escape_char(c);
    assert forall|i: int| 0 <= i < e.len() implies #[trigger] e[i] != '\n' by {
        if !(c == '"' || c == '\\' || c == '\n' || c == '\r' || c == '\t') && (c as u32)
            < 0x20 {
            assert(crate::json::hex_digit((c as u32) / 16) != '\n');
            assert(crate::json::hex_digit((c as u32) % 16) != '\n');
        }
    }
}

/// An escaped string body holds no newline.
proof fn lemma_nf_escape_seq(s: Seq<char>)
    ensures
        newline_free(escape_seq(s)),
    decreases s.len(),
{
    if s.len() == 0 {
        assert(newline_free(escape_seq(s)));
    } else {
        lemma_nf_escape_char(s[0]);
        lemma_nf_escape_seq(s.drop_first());
        lemma_nf_concat(escape_char(s[0]), escape_seq(s.drop_first()));
    }
}

/// A JSON string literal holds no newline, whatever text it encodes.
proof fn lemma_nf_jstr(s: Seq<char>)
    ensures
        newline_free(jstr(s)),
{
    lemma_nf_escape_seq(s);
    assert(newline_free(seq!['"']));
    lemma_nf_concat(seq!['"'], escape_seq(s));
    lemma_nf_concat(seq!['"'] + escape_seq(s), seq!['"']);
    assert(jstr(s) =~= (seq!['"'] + escape_seq(s)) + seq!['"']);
}

/// A compact key fragment holds no newline.
proof fn lemma_nf_key_fragment(k: Seq<char>)
    requires
        plain_text(k),
    ensures
        newline_free(key_fragment(k, false)),
{
    lemma_nf_plain(k);
    assert(newline_free(seq!['"']));
    assert(newline_free(seq!['"', ':']));
    lemma_nf_concat(seq!['"'], k);
    lemma_nf_concat(seq!['"'] + k, seq!['"', ':']);
    assert(key_fragment(k, false) =~= (seq!['"'] + k) + seq!['"', ':']);
}

/// A compact icon object holds no newline.
proof fn lemma_nf_icon(i: IconView)
    ensures
        newline_free(icon_rendered(i, false)),
{
    lemma_keys_plain();
    lemma_nf_key_fragment("src"@);
    lemma_nf_key_fragment("sizes"@);
    lemma_nf_key_fragment("type"@);
    lemma_nf_jstr(i.src);
    lemma_nf_jstr(i.sizes);
    lemma_nf_jstr(i.icon_type);
    assert(newline_free(seq!['{']));
    assert(newline_free(seq![',']));
    assert(newline_free(seq!['}']));
    lemma_nf_concat(seq!['{'], key_fragment("src"@, false));
    let p1 = seq!['{'] + key_fragment("src"@, false);
    lemma_nf_concat(p1, jstr(i.src));
    let p2 = p1 + jstr(i.src);
    lemma_nf_concat(p2, seq![',']);
    let p3 = p2 + seq![','];
    lemma_nf_concat(p3, key_fragment("sizes"@, false));
    let p4 = p3 + key_fragment("sizes"@, false);
    lemma_nf_concat(p4, jstr(i.sizes));
    let p5 = p4 + jstr(i.sizes);
    lemma_nf_concat(p5, seq![',']);
    let p6 = p5 + seq![','];
    lemma_nf_concat(p6, key_fragment("type"@, false));
    let p7 = p6 + key_fragment("type"@, false);
    lemma_nf_concat(p7, jstr(i.icon_type));
    let p8 = p7 + jstr(i.icon_type);
    lemma_nf_concat(p8, seq!['}']);
    assert(p8 + seq!['}'] =~= icon_rendered(i, false));
    assert(newline_free(icon_rendered(i, false)));
}

/// A compact related-application object holds no newline.
proof fn lemma_nf_related(r: RelatedView)
    ensures
        newline_free(related_rendered(r, false)),
{
    lemma_keys_plain();
    lemma_nf_key_fragment("platform"@);
    lemma_nf_key_fragment("url"@);
    lemma_nf_jstr(r.platform);
    lemma_nf_jstr(r.url);
    assert(newline_free(seq!['{']));
    assert(newline_free(seq![',']));
    assert(newline_free(seq!['}']));
    lemma_nf_concat(seq!['{'], key_fragment("platform"@, false));
    let p1 = seq!['{'] + key_fragment("platform"@, false);
    lemma_nf_concat(p1, jstr(r.platform));
    let p2 = p1 + jstr(r.platform);
    lemma_nf_concat(p2, seq![',']);
    let p3 = p2 + seq![','];
    lemma_nf_concat(p3, key_fragment("url"@, false));
    let p4 = p3 + key_fragment("url"@, false);
    lemma_nf_concat(p4, jstr(r.url));
    let p5 = p4 + jstr(r.url);
    lemma_nf_concat(p5, seq!['}']);
    assert(p5 + seq!['}'] =~= related_rendered(r, false));
    assert(newline_free(related_rendered(r, false)));
}

/// The compact join of the icon objects holds no newline.
proof fn lemma_nf_icons_join(icons: Seq<IconView>)
    requires
        icons.len() >= 1,
    ensures
        newline_free(join(icons.map_values(|iv: IconView| icon_rendered(iv, false)), array_sep(false))),
    decreases icons.len(),
{
    let ec = icons.map_values(|iv: IconView| icon_rendered(iv, false));
    lemma_nf_icon(icons[0]);
    if icons.len() == 1 {
        assert(join(ec, array_sep(false)) == ec[0]);
    } else {
        lemma_nf_icons_join(icons.drop_first());
        assert(ec.drop_first() =~= icons.drop_first().map_values(
            |iv: IconView| icon_rendered(iv, false),
        ));
        assert(newline_free(array_sep(false)));
        lemma_nf_concat(ec[0], array_sep(false));
        lemma_nf_concat(ec[0] + array_sep(false), join(ec.drop_first(), array_sep(false)));
        assert((ec[0] + array_sep(false)) + join(ec.drop_first(), array_sep(false)) =~= join(
            ec,
            array_sep(false),
        ));
    }
}

/// The compact join of the related objects holds no newline.
proof fn lemma_nf_related_join(rs: Seq<RelatedView>)
    requires
        rs.len() >= 1,
    ensures
        newline_free(
            join(rs.map_values(|rv: RelatedView| related_rendered(rv, false)), array_sep(false)),
        ),
    decreases rs.len(),
{
    let ec = rs.map_values(|rv: RelatedView| related_rendered(rv, false));
    lemma_nf_related(rs[0]);
    if rs.len() == 1 {
        assert(join(ec, array_sep(false)) == ec[0]);
    } else {
        lemma_nf_related_join(rs.drop_first());
        assert(ec.drop_first() =~= rs.drop_first().map_values(
            |rv: RelatedView| related_rendered(rv, false),
        ));
        assert(newline_free(array_sep(false)));
        lemma_nf_concat(ec[0], array_sep(false));
        lemma_nf_concat(ec[0] + array_sep(false), join(ec.drop_first(), array_sep(false)));
        assert((ec[0] + array_sep(false)) + join(ec.drop_first(), array_sep(false)) =~= join(
            ec,
            array_sep(false),
        ));
    }
}

/// A compact member value holds no newline.
proof fn lemma_nf_field(f: JsonField)
    ensures
        newline_free(field_rendered(f, false)),
{
    match f {
        JsonField::Text(s) => {
            lemma_nf_jstr(s);
        },
        JsonField::Flag(b) => {
            lemma_seq_plain(bool_token(b));
            lemma_nf_plain(bool_token(b));
        },
        JsonField::Icons(icons) => {
            let ec = icons.map_values(|iv: IconView| icon_rendered(iv, false));
            if icons.len() == 0 {
                assert(array_rendered(ec, false) =~= seq!['[', ']']);
                assert(newline_free(seq!['[', ']']));
            } else {
                lemma_nf_icons_join(icons);
                assert(newline_free(seq!['[']));
                assert(newline_free(seq![']']));
                lemma_nf_concat(seq!['['], join(ec, array_sep(false)));
                lemma_nf_concat(seq!['['] + join(ec, array_sep(false)), seq![']']);
                assert((seq!['['] + join(ec, array_sep(false))) + seq![']'] =~= array_rendered(
                    ec,
                    false,
                ));
            }
        },
        JsonField::RelatedApps(rs) => {
            let ec = rs.map_values(|rv: RelatedView| related_rendered(rv, false));
            if rs.len() == 0 {
                assert(array_rendered(ec, false) =~= seq!['[', ']']);
                assert(newline_free(seq!['[', ']']));
            } else {
                lemma_nf_related_join(rs);
                assert(newline_free(seq!['[']));
                assert(newline_free(seq![']']));
                lemma_nf_concat(seq!['['], join(ec, array_sep(false)));
                lemma_nf_concat(seq!['['] + join(ec, array_sep(false)), seq![']']);
                assert((seq!['['] + join(ec, array_sep(false))) + seq![']'] =~= array_rendered(
                    ec,
                    false,
                ));
            }
        },
    }
}

/// A compact member holds no newline, given a plain key.
proof fn lemma_nf_member(kv: (Seq<char>, JsonField))
    requires
        plain_text(kv.0),
    ensures
        newline_free(member_rendered(kv, false)),
{
    lemma_nf_key_fragment(kv.0);
    lemma_nf_field(kv.1);
    lemma_nf_concat(key_fragment(kv.0, false), field_rendered(kv.1, false));
}

/// The compact tail of one member group holds no newline.
proof fn lemma_nf_group_tail(g: Seq<(Seq<char>, JsonField)>)
    requires
        g.len() <= 1,
        g.len() == 1 ==> plain_text(g[0].0),
    ensures
        newline_free(members_tail_rendered(g, false)),
{
    if g.len() == 0 {
        assert(members_tail_rendered(g, false) =~= Seq::<char>::empty());
        assert(newline_free(Seq::<char>::empty()));
    } else {
        assert(g =~= seq![g[0]]);
        lemma_tail_single(g[0], false);
        lemma_nf_member(g[0]);
        assert(newline_free(member_sep(false)));
        lemma_nf_concat(member_sep(false), member_rendered(g[0], false));
    }
}

/// The compact tail of all optional members holds no newline.
#[verifier::rlimit(100)]
#[verifier::spinoff_prover]
proof fn lemma_nf_optional_tail(m: ManifestView)
    ensures
        newline_free(members_tail_rendered(optional_members(m), false)),
{
    lemma_keys_plain();
    let g1 = opt_text_member("short_name"@, m.short_name);
    let g2 = opt_text_member("start_url"@, m.start_url);
    let g3 = display_member(m.display_mode);
    let g4 = opt_text_member("background_color"@, m.background_color);
    let g5 = opt_text_member("description"@, m.description);
    let g6 = direction_member(m.direction);
    let g7 = orientation_member(m.orientation);
    let g8 = opt_text_member("lang"@, m.lang);
    let g9 = opt_text_member("scope"@, m.scope);
    let g10 = opt_text_member("theme_color"@, m.theme_color);
    let g11 = prefer_member(m.prefer_related_applications);
    lemma_nf_group_tail(g1);
    lemma_nf_group_tail(g2);
    lemma_nf_group_tail(g3);
    lemma_nf_group_tail(g4);
    lemma_nf_group_tail(g5);
    lemma_nf_group_tail(g6);
    lemma_nf_group_tail(g7);
    lemma_nf_group_tail(g8);
    lemma_nf_group_tail(g9);
    lemma_nf_group_tail(g10);
    lemma_nf_group_tail(g11);
    lemma_tail_concat(g1, g2, false);
    lemma_nf_concat(members_tail_rendered(g1, false), members_tail_rendered(g2, false));
    lemma_tail_concat(g1 + g2, g3, false);
    lemma_nf_concat(members_tail_rendered(g1 + g2, false), members_tail_rendered(g3, false));
    lemma_tail_concat(g1 + g2 + g3, g4, false);
    lemma_nf_concat(members_tail_rendered(g1 + g2 + g3, false), members_tail_rendered(g4, false));
    lemma_tail_concat(g1 + g2 + g3 + g4, g5, false);
    lemma_nf_concat(
        members_tail_rendered(g1 + g2 + g3 + g4, false),
        members_tail_rendered(g5, false),
    );
    lemma_tail_concat(g6, g7, false);
    lemma_nf_concat(members_tail_rendered(g6, false), members_tail_rendered(g7, false));
    lemma_tail_concat(g6 + g7, g8, false);
    lemma_nf_concat(members_tail_rendered(g6 + g7, false), members_tail_rendered(g8, false));
    lemma_tail_concat(g6 + g7 + g8, g9, false);
    lemma_nf_concat(members_tail_rendered(g6 + g7 + g8, false), members_tail_rendered(g9, false));
    lemma_tail_concat(g6 + g7 + g8 + g9, g10, false);
    lemma_nf_concat(
        members_tail_rendered(g6 + g7 + g8 + g9, false),
        members_tail_rendered(g10, false),
    );
    lemma_tail_concat(g6 + g7 + g8 + g9 + g10, g11, false);
    lemma_nf_concat(
        members_tail_rendered(g6 + g7 + g8 + g9 + g10, false),
        members_tail_rendered(g11, false),
    );
    lemma_tail_concat(optional_members_front(m), optional_members_back(m), false);
    lemma_nf_concat(
        members_tail_rendered(optional_members_front(m), false),
        members_tail_rendered(optional_members_back(m), false),
    );
}

/// The compact document holds no newline character at all: layout adds none,
/// and a newline inside a value is escaped to the two characters `\` `n`.
#[verifier::rlimit(100)]
#[verifier::spinoff_prover]
pub proof fn lemma_compact_has_no_newline(m: ManifestView)
    ensures
        newline_free(manifest_json(m)),
{
    lemma_manifest_rendered_parts(m, false);
    lemma_keys_plain();
    let name_kv = ("name"@, JsonField::Text(m.name));
    let icons_kv = ("icons"@, JsonField::Icons(m.icons));
    let rel_kv = ("related_applications"@, JsonField::RelatedApps(m.related_applications));
    lemma_nf_member(name_kv);
    lemma_nf_member(icons_kv);
    lemma_nf_member(rel_kv);
    lemma_nf_optional_tail(m);
    assert(newline_free(seq!['{']));
    assert(newline_free(seq!['}']));
    assert(newline_free(member_sep(false)));
    lemma_nf_concat(seq!['{'], member_rendered(name_kv, false));
    let p2 = seq!['{'] + member_rendered(name_kv, false);
    lemma_nf_concat(p2, members_tail_rendered(optional_members(m), false));
    let p3 = p2 + members_tail_rendered(optional_members(m), false);
    lemma_nf_concat(p3, member_sep(false));
    let p4 = p3 + member_sep(false);
    lemma_nf_concat(p4, member_rendered(icons_kv, false));
    let p5 = p4 + member_rendered(icons_kv, false);
    lemma_nf_concat(p5, member_sep(false));
    let p6 = p5 + member_sep(false);
    lemma_nf_concat(p6, member_rendered(rel_kv, false));
    let p7 = p6 + member_rendered(rel_kv, false);
    lemma_nf_concat(p7, seq!['}']);
    assert(p7 + seq!['}'] =~= manifest_json(m));
    assert(newline_free(manifest_json(m)));
}

} // verus!
