//! JSON text fragments: string escaping, quoting, joining members with
//! separators, and containment facts about the assembled text.
//!
//! The spec functions here pin down, character by character, the JSON text
//! the builder emits; the exec functions append those fragments to a
//! `String` and are verified against them.

use vstd::prelude::*;
use vstd::string::StrSliceExecFns;
use vstd::string::StringExecFns;

verus! {

/// Hexadecimal digit character for a value below 16, lower case.
pub open spec fn hex_digit(n: u32) -> char {
    if n == 0 {
        '0'
    } else if n == 1 {
        '1'
    } else if n == 2 {
        '2'
    } else if n == 3 {
        '3'
    } else if n == 4 {
        '4'
    } else if n == 5 {
        '5'
    } else if n == 6 {
        '6'
    } else if n == 7 {
        '7'
    } else if n == 8 {
        '8'
    } else if n == 9 {
        '9'
    } else if n == 10 {
        'a'
    } else if n == 11 {
        'b'
    } else if n == 12 {
        'c'
    } else if n == 13 {
        'd'
    } else if n == 14 {
        'e'
    } else {
        'f'
    }
}

/// How one character appears inside a JSON string literal: the quote, the
/// backslash and all control characters are escaped, everything else stands
/// verbatim.
pub open spec fn escape_char(c: char) -> Seq<char> {
    if c == '"' {
        seq!['\\', '"']
    } else if c == '\\' {
        seq!['\\', '\\']
    } else if c == '\n' {
        seq!['\\', 'n']
    } else if c == '\r' {
        seq!['\\', 'r']
    } else if c == '\t' {
        seq!['\\', 't']
    } else if (c as u32) < 0x20 {
        seq!['\\', 'u', '0', '0', hex_digit((c as u32) / 16), hex_digit((c as u32) % 16)]
    } else {
        seq![c]
    }
}

/// The body of a JSON string literal holding the text `s`.
pub open spec fn escape_seq(s: Seq<char>) -> Seq<char>
    decreases s.len(),
{
    if s.len() == 0 {
        Seq::empty()
    } else {
        escape_char(s[0]) + escape_seq(s.drop_first())
    }
}

/// A JSON string literal: the escaped text between double quotes.
pub open spec fn jstr(s: Seq<char>) -> Seq<char> {
    seq!['"'] + escape_seq(s) + seq!['"']
}

/// Wire form of a JSON boolean.
pub open spec fn bool_token(b: bool) -> Seq<char> {
    if b {
        seq!['t', 'r', 'u', 'e']
    } else {
        seq!['f', 'a', 'l', 's', 'e']
    }
}

/// An object member's key together with the separating colon; the pretty
/// form puts one space after the colon.
pub open spec fn key_fragment(k: Seq<char>, pretty: bool) -> Seq<char> {
    seq!['"'] + k + seq!['"', ':'] + if pretty {
        seq![' ']
    } else {
        Seq::<char>::empty()
    }
}

/// The given parts joined with the separator between consecutive parts.
pub open spec fn join(parts: Seq<Seq<char>>, sep: Seq<char>) -> Seq<char>
    decreases parts.len(),
{
    if parts.len() == 0 {
        Seq::empty()
    } else if parts.len() == 1 {
        parts[0]
    } else {
        parts[0] + sep + join(parts.drop_first(), sep)
    }
}

/// `n` space characters.
pub open spec fn spaces(n: nat) -> Seq<char>
    decreases n,
{
    if n == 0 {
        Seq::empty()
    } else {
        spaces((n - 1) as nat) + seq![' ']
    }
}

/// A newline followed by `n` spaces of indentation.
pub open spec fn line_break(n: nat) -> Seq<char> {
    seq!['\n'] + spaces(n)
}

/// `needle` occurs contiguously inside `hay`.
pub open spec fn contains_seq(hay: Seq<char>, needle: Seq<char>) -> bool {
    exists|i: int|
        0 <= i && i + needle.len() <= hay.len() && #[trigger] hay.subrange(i, i + needle.len())
            == needle
}

/// Text whose characters all stand for themselves inside a JSON string.
pub open spec fn unescaped(s: Seq<char>) -> bool {
    forall|i: int| 0 <= i < s.len() ==> escape_char(s[i]) == seq![s[i]]
}

/// A character that needs no escaping and is neither a quote, a backslash,
/// nor whitespace. Keys and enumeration tokens consist of such characters.
pub open spec fn plain_char(c: char) -> bool {
    c != '"' && c != '\\' && c != ' ' && c != '\n' && c != '\r' && c != '\t' && (c as u32)
        >= 0x20
}

/// Text made only of plain characters.
pub open spec fn plain_text(s: Seq<char>) -> bool {
    forall|i: int| 0 <= i < s.len() ==> plain_char(#[trigger] s[i])
}

/// Plain text needs no escaping.
pub proof fn lemma_plain_unescaped(s: Seq<char>)
    requires
        plain_text(s),
    ensures
        unescaped(s),
        escape_seq(s) == s,
{
    assert forall|i: int| 0 <= i < s.len() implies escape_char(s[i]) == seq![s[i]] by {
        assert(plain_char(s[i]));
    }
    lemma_escape_seq_unescaped(s);
}

/// Escaping distributes over concatenation.
pub proof fn lemma_escape_seq_concat(a: Seq<char>, b: Seq<char>)
    ensures
        escape_seq(a + b) == escape_seq(a) + escape_seq(b),
    decreases a.len(),
{
    if a.len() == 0 {
        assert(a + b =~= b);
        assert(escape_seq(a) + escape_seq(b) =~= escape_seq(b));
    } else {
        assert((a + b).drop_first() =~= a.drop_first() + b);
        assert((a + b)[0] == a[0]);
        lemma_escape_seq_concat(a.drop_first(), b);
        assert(escape_seq(a + b) =~= escape_seq(a) + escape_seq(b));
    }
}

/// Text with nothing to escape passes through escaping unchanged.
pub proof fn lemma_escape_seq_unescaped(s: Seq<char>)
    requires
        unescaped(s),
    ensures
        escape_seq(s) == s,
    decreases s.len(),
{
    if s.len() == 0 {
        assert(escape_seq(s) =~= s);
    } else {
        assert(forall|i: int|
            0 <= i < s.drop_first().len() ==> escape_char(s.drop_first()[i]) == seq![
                s.drop_first()[i],
            ]) by {
            assert(forall|i: int| 0 <= i < s.drop_first().len() ==> s.drop_first()[i] == s[i + 1]);
        }
        lemma_escape_seq_unescaped(s.drop_first());
        assert(escape_seq(s) =~= s);
    }
}

/// Joining after appending one more part ends with the separator and that part.
pub proof fn lemma_join_snoc(parts: Seq<Seq<char>>, sep: Seq<char>, p: Seq<char>)
    requires
        parts.len() >= 1,
    ensures
        join(parts.push(p), sep) == join(parts, sep) + sep + p,
    decreases parts.len(),
{
    if parts.len() == 1 {
        assert(parts.push(p).drop_first() =~= seq![p]);
        assert(join(seq![p], sep) == p);
        assert(join(parts.push(p), sep) =~= join(parts, sep) + sep + p);
    } else {
        assert(parts.push(p).drop_first() =~= parts.drop_first().push(p));
        lemma_join_snoc(parts.drop_first(), sep, p);
        assert(join(parts.push(p), sep) =~= join(parts, sep) + sep + p);
    }
}

/// Whatever occurs in `b` occurs in `a + b`.
pub proof fn lemma_contains_prepend(a: Seq<char>, b: Seq<char>, f: Seq<char>)
    requires
        contains_seq(b, f),
    ensures
        contains_seq(a + b, f),
{
    let i = choose|i: int|
        0 <= i && i + f.len() <= b.len() && #[trigger] b.subrange(i, i + f.len()) == f;
    assert((a + b).subrange(a.len() + i, a.len() + i + f.len()) =~= b.subrange(i, i + f.len()));
}

/// Whatever occurs in `a` occurs in `a + b`.
pub proof fn lemma_contains_append(a: Seq<char>, b: Seq<char>, f: Seq<char>)
    requires
        contains_seq(a, f),
    ensures
        contains_seq(a + b, f),
{
    let i = choose|i: int|
        0 <= i && i + f.len() <= a.len() && #[trigger] a.subrange(i, i + f.len()) == f;
    assert((a + b).subrange(i, i + f.len()) =~= a.subrange(i, i + f.len()));
}

/// Containment is transitive.
pub proof fn lemma_contains_trans(a: Seq<char>, b: Seq<char>, c: Seq<char>)
    requires
        contains_seq(a, b),
        contains_seq(b, c),
    ensures
        contains_seq(a, c),
{
    let i = choose|i: int|
        0 <= i && i + b.len() <= a.len() && #[trigger] a.subrange(i, i + b.len()) == b;
    let j = choose|j: int|
        0 <= j && j + c.len() <= b.len() && #[trigger] b.subrange(j, j + c.len()) == c;
    assert(a.subrange(i + j, i + j + c.len()) =~= b.subrange(j, j + c.len()));
}

/// Every sequence occurs in itself.
pub proof fn lemma_contains_self(a: Seq<char>)
    ensures
        contains_seq(a, a),
{
    assert(a.subrange(0, 0 + a.len() as int) =~= a);
}

/// A join contains each of its parts contiguously.
pub proof fn lemma_join_contains(parts: Seq<Seq<char>>, sep: Seq<char>, k: int)
    requires
        0 <= k < parts.len(),
    ensures
        contains_seq(join(parts, sep), parts[k]),
    decreases parts.len(),
{
    if parts.len() == 1 {
        lemma_contains_self(parts[0]);
    } else if k == 0 {
        lemma_contains_self(parts[0]);
        lemma_contains_append(parts[0], sep + join(parts.drop_first(), sep), parts[0]);
        assert(parts[0] + (sep + join(parts.drop_first(), sep)) =~= join(parts, sep));
    } else {
        lemma_join_contains(parts.drop_first(), sep, k - 1);
        lemma_contains_prepend(parts[0] + sep, join(parts.drop_first(), sep), parts[k]);
        assert((parts[0] + sep) + join(parts.drop_first(), sep) =~= join(parts, sep));
    }
}

/// Relies on std's `String::push`: appends the given character to the end of
/// the string.
#[verifier::external_body]
pub(crate) fn push_char(out: &mut String, c: char)
    ensures
        final(out)@ == old(out)@ + seq![c],
{
    out.push(c);
}

/// Hexadecimal digit character for a value below 16.
fn hex_char(n: u32) -> (c: char)
    requires
        n < 16,
    ensures
        c == hex_digit(n),
{
    if n == 0 {
        '0'
    } else if n == 1 {
        '1'
    } else if n == 2 {
        '2'
    } else if n == 3 {
        '3'
    } else if n == 4 {
        '4'
    } else if n == 5 {
        '5'
    } else if n == 6 {
        '6'
    } else if n == 7 {
        '7'
    } else if n == 8 {
        '8'
    } else if n == 9 {
        '9'
    } else if n == 10 {
        'a'
    } else if n == 11 {
        'b'
    } else if n == 12 {
        'c'
    } else if n == 13 {
        'd'
    } else if n == 14 {
        'e'
    } else {
        'f'
    }
}

/// Appends the escaped form of `s` to `out`.
pub(crate) fn push_escaped(out: &mut String, s: &str)
    ensures
        final(out)@ == old(out)@ + escape_seq(s@),
{
    let len = s.unicode_len();
    let mut i: usize = 0;
    while i < len
        invariant
            i <= len,
            len == s@.len(),
            out@ == old(out)@ + escape_seq(s@.subrange(0, i as int)),
        decreases len - i,
    {
        let ghost prefix = s@.subrange(0, i as int);
        let ghost before = out@;
        let c = s.get_char(i);
        if c == '"' {
            push_char(out, '\\');
            push_char(out, '"');
        } else if c == '\\' {
            push_char(out, '\\');
            push_char(out, '\\');
        } else if c == '\n' {
            push_char(out, '\\');
            push_char(out, 'n');
        } else if c == '\r' {
            push_char(out, '\\');
            push_char(out, 'r');
        } else if c == '\t' {
            push_char(out, '\\');
            push_char(out, 't');
        } else {
            let n = c as u32;
            if n < 0x20 {
                push_char(out, '\\');
                push_char(out, 'u');
                push_char(out, '0');
                push_char(out, '0');
                push_char(out, hex_char(n / 16));
                push_char(out, hex_char(n % 16));
            } else {
                push_char(out, c);
            }
        }
        proof {
            assert(out@ =~= before + escape_char(s@[i as int]));
            assert(s@.subrange(0, i + 1) =~= prefix + seq![s@[i as int]]);
            lemma_escape_seq_concat(prefix, seq![s@[i as int]]);
            assert(seq![s@[i as int]].drop_first() =~= Seq::<char>::empty());
            assert(escape_seq(Seq::<char>::empty()) =~= Seq::<char>::empty());
            assert(escape_seq(seq![s@[i as int]]) =~= escape_char(s@[i as int]));
            assert(out@ =~= old(out)@ + escape_seq(s@.subrange(0, i + 1)));
        }
        i = i + 1;
    }
    proof {
        assert(s@.subrange(0, len as int) =~= s@);
    }
}

/// Appends `s` as a JSON string literal (quoted and escaped) to `out`.
pub(crate) fn push_json_string(out: &mut String, s: &str)
    ensures
        final(out)@ == old(out)@ + jstr(s@),
{
    push_char(out, '"');
    push_escaped(out, s);
    push_char(out, '"');
    proof {
        assert(out@ =~= old(out)@ + jstr(s@));
    }
}

/// Appends an object member's quoted key and colon to `out`.
pub(crate) fn push_key(out: &mut String, k: &str, pretty: bool)
    ensures
        final(out)@ == old(out)@ + key_fragment(k@, pretty),
{
    push_char(out, '"');
    out.append(k);
    push_char(out, '"');
    push_char(out, ':');
    if pretty {
        push_char(out, ' ');
    }
    proof {
        assert(out@ =~= old(out)@ + key_fragment(k@, pretty));
    }
}

/// Appends a newline and `n` spaces of indentation to `out`.
pub(crate) fn push_line_break(out: &mut String, n: usize)
    ensures
        final(out)@ == old(out)@ + line_break(n as nat),
{
    push_char(out, '\n');
    let mut i: usize = 0;
    while i < n
        invariant
            i <= n,
            out@ == old(out)@ + seq!['\n'] + spaces(i as nat),
        decreases n - i,
    {
        push_char(out, ' ');
        i = i + 1;
    }
    proof {
        assert(out@ =~= old(out)@ + line_break(n as nat));
    }
}

} // verus!
