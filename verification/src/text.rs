//! Character-level utilities shared by the line recognizers and the
//! serializers: character classes, decimal printing and parsing, and
//! JSON string escaping.
use vstd::prelude::*;

verus! {

/// An ASCII decimal digit.
pub open spec fn is_digit(c: char) -> bool {
    '0' <= c && c <= '9'
}

/// An ASCII hexadecimal digit, either case.
pub open spec fn is_hex(c: char) -> bool {
    is_digit(c) || ('a' <= c && c <= 'f') || ('A' <= c && c <= 'F')
}

/// Whitespace as the line formats know it: the characters of Unicode's
/// White_Space property, which field separators are drawn from.
pub open spec fn is_space(c: char) -> bool {
    c == ' ' || c == '\t' || c == '\n' || c == '\r' || c == '\u{b}' || c == '\u{c}' || c
        == '\u{85}' || c == '\u{a0}' || c == '\u{1680}' || ('\u{2000}' <= c && c <= '\u{200a}')
        || c == '\u{2028}' || c == '\u{2029}' || c == '\u{202f}' || c == '\u{205f}' || c
        == '\u{3000}'
}

pub fn digit(c: char) -> (r: bool)
    ensures
        r == is_digit(c),
{
    '0' <= c && c <= '9'
}

pub fn hex(c: char) -> (r: bool)
    ensures
        r == is_hex(c),
{
    digit(c) || ('a' <= c && c <= 'f') || ('A' <= c && c <= 'F')
}

pub fn space(c: char) -> (r: bool)
    ensures
        r == is_space(c),
{
    c == ' ' || c == '\t' || c == '\n' || c == '\r' || c == '\u{b}' || c == '\u{c}' || c
        == '\u{85}' || c == '\u{a0}' || c == '\u{1680}' || ('\u{2000}' <= c && c <= '\u{200a}')
        || c == '\u{2028}' || c == '\u{2029}' || c == '\u{202f}' || c == '\u{205f}' || c
        == '\u{3000}'
}

/// Relies on std's `str::chars` and `Iterator::collect`: the characters of
/// the string, in order.
#[verifier::external_body]
pub(crate) fn to_chars(s: &str) -> (v: Vec<char>)
    ensures
        v@ == s@,
{
    s.chars().collect()
}

/// Relies on std's `Iterator::collect` for `String`: the string made of
/// exactly the given characters, in order.
#[verifier::external_body]
pub(crate) fn from_chars(v: &Vec<char>) -> (s: String)
    ensures
        s@ == v@,
{
    v.iter().collect()
}

/// The characters of `v` from `a` (inclusive) to `b` (exclusive).
pub fn sub_chars(v: &Vec<char>, a: usize, b: usize) -> (r: Vec<char>)
    requires
        a <= b <= v@.len(),
    ensures
        r@ == v@.subrange(a as int, b as int),
{
    let mut r: Vec<char> = Vec::new();
    let mut i: usize = a;
    while i < b
        invariant
            a <= i <= b <= v@.len(),
            r@ == v@.subrange(a as int, i as int),
        decreases b - i,
    {
        r.push(v[i]);
        assert(v@.subrange(a as int, (i + 1) as int) == v@.subrange(a as int, i as int).push(
            v@[i as int],
        ));
        i = i + 1;
    }
    r
}

/// Relies on std's `str::len`. vstd states its result only through a
/// truncating cast; std documents that a string's byte length never
/// exceeds `isize::MAX`, so the length is stated here exactly.
#[verifier::external_body]
pub(crate) fn byte_len(s: &str) -> (r: usize)
    ensures
        r == vstd::utf8::encode_utf8(s@).len(),
{
    s.len()
}

/// Whether two string slices hold the same characters.
#[verifier::loop_isolation(false)]
pub fn str_eq(a: &str, b: &str) -> (r: bool)
    ensures
        r == (a@ == b@),
{
    let va = to_chars(a);
    let vb = to_chars(b);
    if va.len() != vb.len() {
        return false;
    }
    let mut i: usize = 0;
    while i < va.len()
        invariant
            0 <= i <= va@.len(),
            va@.len() == vb@.len(),
            forall|j: int| 0 <= j < i ==> va@[j] == vb@[j],
        decreases va@.len() - i,
    {
        if va[i] != vb[i] {
            return false;
        }
        i = i + 1;
    }
    proof {
        assert(a@ =~= b@);
    }
    true
}

/// The numeric value of a digit sequence, most significant first.
pub open spec fn dec_val(s: Seq<char>) -> nat
    decreases s.len(),
{
    if s.len() == 0 {
        0
    } else {
        (dec_val(s.drop_last()) * 10 + (s.last() as int - '0' as int)) as nat
    }
}

pub open spec fn all_digits(s: Seq<char>) -> bool {
    forall|i: int| 0 <= i < s.len() ==> is_digit(#[trigger] s[i])
}

/// What `u64::from_str` accepts: an optional leading `+`, then one or
/// more decimal digits, denoting a value that fits.
pub open spec fn spec_parse_u64(s: Seq<char>) -> Option<u64> {
    let d = if s.len() > 0 && s[0] == '+' {
        s.subrange(1, s.len() as int)
    } else {
        s
    };
    if d.len() > 0 && all_digits(d) && dec_val(d) <= u64::MAX {
        Some(dec_val(d) as u64)
    } else {
        None
    }
}

pub open spec fn spec_parse_u32(s: Seq<char>) -> Option<u32> {
    let d = if s.len() > 0 && s[0] == '+' {
        s.subrange(1, s.len() as int)
    } else {
        s
    };
    if d.len() > 0 && all_digits(d) && dec_val(d) <= u32::MAX {
        Some(dec_val(d) as u32)
    } else {
        None
    }
}

/// Parse an unsigned decimal with an optional leading `+`, as
/// `str::parse::<u64>` does, rejecting anything else or out of range.
#[verifier::loop_isolation(false)]
pub fn parse_u64(s: &str) -> (r: Option<u64>)
    ensures
        r == spec_parse_u64(s@),
{
    let v = to_chars(s);
    let start: usize = if v.len() > 0 && v[0] == '+' {
        1
    } else {
        0
    };
    let ghost d: Seq<char> = if s@.len() > 0 && s@[0] == '+' {
        s@.subrange(1, s@.len() as int)
    } else {
        s@
    };
    assert(d == v@.subrange(start as int, v@.len() as int));
    if v.len() == start {
        return None;
    }
    let mut acc: u64 = 0;
    let mut i: usize = start;
    while i < v.len()
        invariant
            start <= i <= v@.len(),
            start < v@.len(),
            d == v@.subrange(start as int, v@.len() as int),
            all_digits(v@.subrange(start as int, i as int)),
            acc == dec_val(v@.subrange(start as int, i as int)),
            acc <= u64::MAX,
        decreases v@.len() - i,
    {
        let c = v[i];
        if !digit(c) {
            proof {
                assert(d[i - start] == v@[i as int]);
                assert(!all_digits(d));
            }
            return None;
        }
        let dv: u64 = (c as u32 as u64) - ('0' as u32 as u64);
        assert(dv == c as nat - '0' as nat);
        assert(v@.subrange(start as int, (i + 1) as int).drop_last() == v@.subrange(
            start as int,
            i as int,
        ));
        assert(v@.subrange(start as int, (i + 1) as int).last() == v@[i as int]);
        if acc > (u64::MAX - dv) / 10 {
            proof {
                let q = (u64::MAX - dv) / 10;
                assert((u64::MAX - dv) == q * 10 + (u64::MAX - dv) % 10) by (nonlinear_arith)
                    requires
                        q == (u64::MAX - dv) / 10,
                        dv <= u64::MAX,
                ;
                assert(acc * 10 >= (q + 1) * 10) by (nonlinear_arith)
                    requires
                        acc >= q + 1,
                ;
                assert(acc * 10 + dv > u64::MAX);
                assert(dec_val(v@.subrange(start as int, (i + 1) as int)) == acc * 10 + dv);
                if all_digits(d) {
                    assert(v@.subrange(start as int, (i + 1) as int) == d.subrange(
                        0,
                        (i + 1 - start) as int,
                    ));
                    lemma_dec_val_prefix_le(d, (i + 1 - start) as int);
                }
            }
            return None;
        }
        acc = acc * 10 + dv;
        i = i + 1;
    }
    assert(d == v@.subrange(start as int, i as int));
    Some(acc)
}

/// A digit prefix never exceeds the value of the whole digit string.
proof fn lemma_dec_val_prefix_le(s: Seq<char>, k: int)
    requires
        0 <= k <= s.len(),
        all_digits(s),
    ensures
        dec_val(s.subrange(0, k)) <= dec_val(s),
    decreases s.len() - k,
{
    if k < s.len() {
        lemma_dec_val_prefix_le(s, k + 1);
        assert(s.subrange(0, k + 1).drop_last() == s.subrange(0, k));
        assert(s.subrange(0, k + 1).last() == s[k]);
        assert(dec_val(s.subrange(0, k)) * 10 <= dec_val(s.subrange(0, k + 1)));
    } else {
        assert(s.subrange(0, k) == s);
    }
}

pub fn parse_u32(s: &str) -> (r: Option<u32>)
    ensures
        r == spec_parse_u32(s@),
{
    match parse_u64(s) {
        Some(n) => {
            proof {
                let d = if s@.len() > 0 && s@[0] == '+' {
                    s@.subrange(1, s@.len() as int)
                } else {
                    s@
                };
                assert(n == dec_val(d));
            }
            if n <= 0xffff_ffff {
                Some(n as u32)
            } else {
                None
            }
        },
        None => None,
    }
}

/// The decimal writing of `n`, most significant digit first.
pub open spec fn spec_dec(n: nat) -> Seq<char>
    decreases n,
{
    if n < 10 {
        seq![digit_char(n as int)]
    } else {
        spec_dec(n / 10).push(digit_char((n % 10) as int))
    }
}

/// The character for one decimal digit.
pub open spec fn digit_char(n: int) -> char {
    if n == 0 {
        '0'
    } else if n == 1 {
        '1'
    } else if n == 2 {
        '2'
    } else if n == 3 {
        '3'
    } else if n == 4 {
        '4'
    } else if n == 5 {
        '5'
    } else if n == 6 {
        '6'
    } else if n == 7 {
        '7'
    } else if n == 8 {
        '8'
    } else {
        '9'
    }
}

fn digit_char_exec(n: u64) -> (c: char)
    requires
        n < 10,
    ensures
        c == digit_char(n as int),
{
    if n == 0 {
        '0'
    } else if n == 1 {
        '1'
    } else if n == 2 {
        '2'
    } else if n == 3 {
        '3'
    } else if n == 4 {
        '4'
    } else if n == 5 {
        '5'
    } else if n == 6 {
        '6'
    } else if n == 7 {
        '7'
    } else if n == 8 {
        '8'
    } else {
        '9'
    }
}

/// Append the decimal writing of `n` to `out`.
pub fn push_dec(n: u64, out: &mut Vec<char>)
    ensures
        final(out)@ == old(out)@ + spec_dec(n as nat),
    decreases n,
{
    if n < 10 {
        out.push(digit_char_exec(n));
    } else {
        push_dec(n / 10, out);
        out.push(digit_char_exec(n % 10));
    }
}

/// The lowercase hexadecimal digit character for `n < 16`.
pub open spec fn hex_char(n: int) -> char {
    if n < 10 {
        digit_char(n)
    } else if n == 10 {
        'a'
    } else if n == 11 {
        'b'
    } else if n == 12 {
        'c'
    } else if n == 13 {
        'd'
    } else if n == 14 {
        'e'
    } else {
        'f'
    }
}

fn hex_char_exec(n: u32) -> (c: char)
    requires
        n < 16,
    ensures
        c == hex_char(n as int),
{
    if n < 10 {
        digit_char_exec(n as u64)
    } else if n == 10 {
        'a'
    } else if n == 11 {
        'b'
    } else if n == 12 {
        'c'
    } else if n == 13 {
        'd'
    } else if n == 14 {
        'e'
    } else {
        'f'
    }
}

/// How one character is written inside a JSON string, exactly as
/// serde_json writes it: `"` and `\` escaped, the five control
/// characters with short escapes, other control characters as
/// `\u00XX`, everything else as itself.
pub open spec fn esc_char(c: char) -> Seq<char> {
    if c == '"' {
        seq!['\\', '"']
    } else if c == '\\' {
        seq!['\\', '\\']
    } else if c == '\u{8}' {
        seq!['\\', 'b']
    } else if c == '\t' {
        seq!['\\', 't']
    } else if c == '\n' {
        seq!['\\', 'n']
    } else if c == '\u{c}' {
        seq!['\\', 'f']
    } else if c == '\r' {
        seq!['\\', 'r']
    } else if (c as int) < 0x20 {
        seq!['\\', 'u', '0', '0', hex_char(c as int / 16), hex_char(c as int % 16)]
    } else {
        seq![c]
    }
}

/// The JSON string escaping of a whole sequence of characters.
pub open spec fn spec_escape(s: Seq<char>) -> Seq<char>
    decreases s.len(),
{
    if s.len() == 0 {
        Seq::empty()
    } else {
        esc_char(s[0]) + spec_escape(s.drop_first())
    }
}

/// A string in its JSON writing: quoted and escaped.
pub open spec fn spec_quoted(s: Seq<char>) -> Seq<char> {
    seq!['"'] + spec_escape(s) + seq!['"']
}

/// Escaping distributes over concatenation.
pub proof fn lemma_escape_append(a: Seq<char>, b: Seq<char>)
    ensures
        spec_escape(a + b) == spec_escape(a) + spec_escape(b),
    decreases a.len(),
{
    if a.len() == 0 {
        assert(a + b == b);
        assert(spec_escape(a) + spec_escape(b) == spec_escape(b));
    } else {
        lemma_escape_append(a.drop_first(), b);
        assert((a + b).drop_first() == a.drop_first() + b);
        assert((a + b)[0] == a[0]);
        assert(esc_char(a[0]) + (spec_escape(a.drop_first()) + spec_escape(b)) == (esc_char(a[0])
            + spec_escape(a.drop_first())) + spec_escape(b));
    }
}

fn push_escaped_char(c: char, out: &mut Vec<char>)
    ensures
        final(out)@ == old(out)@ + esc_char(c),
{
    if c == '"' {
        out.push('\\');
        out.push('"');
    } else if c == '\\' {
        out.push('\\');
        out.push('\\');
    } else if c == '\u{8}' {
        out.push('\\');
        out.push('b');
    } else if c == '\t' {
        out.push('\\');
        out.push('t');
    } else if c == '\n' {
        out.push('\\');
        out.push('n');
    } else if c == '\u{c}' {
        out.push('\\');
        out.push('f');
    } else if c == '\r' {
        out.push('\\');
        out.push('r');
    } else if (c as u32) < 0x20 {
        out.push('\\');
        out.push('u');
        out.push('0');
        out.push('0');
        out.push(hex_char_exec((c as u32) / 16));
        out.push(hex_char_exec((c as u32) % 16));
    } else {
        out.push(c);
    }
    assert(final(out)@ =~= old(out)@ + esc_char(c));
}

/// Append the JSON escaping of `v` to `out`.
#[verifier::loop_isolation(false)]
pub fn push_escaped(v: &Vec<char>, out: &mut Vec<char>)
    ensures
        final(out)@ == old(out)@ + spec_escape(v@),
{
    let mut i: usize = 0;
    while i < v.len()
        invariant
            0 <= i <= v@.len(),
            out@ == old(out)@ + spec_escape(v@.take(i as int)),
        decreases v@.len() - i,
    {
        push_escaped_char(v[i], out);
        proof {
            lemma_escape_append(v@.take(i as int), seq![v@[i as int]]);
            assert(v@.take(i + 1) == v@.take(i as int) + seq![v@[i as int]]);
            assert(spec_escape(seq![v@[i as int]]) == esc_char(v@[i as int])) by {
                assert(seq![v@[i as int]].drop_first() =~= Seq::<char>::empty());
                assert(spec_escape(Seq::<char>::empty()) == Seq::<char>::empty());
                assert(esc_char(v@[i as int]) + Seq::<char>::empty() =~= esc_char(v@[i as int]));
            }
        }
        i = i + 1;
    }
    assert(v@.take(v@.len() as int) == v@);
}

/// A character that escaping leaves as itself.
pub open spec fn is_plain(c: char) -> bool {
    c != '"' && c != '\\' && (c as int) >= 0x20
}

/// However a character is escaped, the writing never begins with a raw
/// quote.
proof fn lemma_esc_head(c: char)
    ensures
        esc_char(c).len() >= 1,
        esc_char(c)[0] != '"',
        is_plain(c) ==> esc_char(c) == seq![c],
        !is_plain(c) ==> esc_char(c)[0] == '\\',
{
}

proof fn lemma_hex_char_inj(n1: int, n2: int)
    requires
        0 <= n1 < 16,
        0 <= n2 < 16,
        hex_char(n1) == hex_char(n2),
    ensures
        n1 == n2,
{
}

/// One escaped character followed by anything determines both the
/// character and what follows: character escapes are prefix-free.
proof fn lemma_esc_prefix(c1: char, c2: char, r1: Seq<char>, r2: Seq<char>)
    requires
        esc_char(c1) + r1 == esc_char(c2) + r2,
    ensures
        c1 == c2,
        r1 == r2,
{
    let e1 = esc_char(c1);
    let e2 = esc_char(c2);
    lemma_esc_head(c1);
    lemma_esc_head(c2);
    assert((e1 + r1)[0] == e1[0]);
    assert((e2 + r2)[0] == e2[0]);
    if is_plain(c1) && is_plain(c2) {
        assert(c1 == c2);
    } else if !is_plain(c1) && !is_plain(c2) {
        assert(e1.len() >= 2 && e2.len() >= 2);
        assert((e1 + r1)[1] == e1[1]);
        assert((e2 + r2)[1] == e2[1]);
        if e1.len() == 2 && e2.len() == 2 {
            assert(c1 == c2);
        } else if e1.len() == 6 && e2.len() == 6 {
            assert((e1 + r1)[4] == e1[4] && (e1 + r1)[5] == e1[5]);
            assert((e2 + r2)[4] == e2[4] && (e2 + r2)[5] == e2[5]);
            lemma_hex_char_inj(c1 as int / 16, c2 as int / 16);
            lemma_hex_char_inj(c1 as int % 16, c2 as int % 16);
            assert(c1 as int == c2 as int);
            assert(c1 == c2);
        } else {
            assert(e1[1] == e2[1]);
            assert(false);
        }
    } else {
        assert(e1[0] == e2[0]);
        assert(false);
    }
    assert(e1 == e2);
    assert((e1 + r1).len() == e1.len() + r1.len());
    assert((e2 + r2).len() == e2.len() + r2.len());
    assert(r1.len() == r2.len());
    assert forall|i: int| 0 <= i < r1.len() implies r1[i] == r2[i] by {
        assert(r1[i] == (e1 + r1)[e1.len() + i]);
        assert(r2[i] == (e2 + r2)[e2.len() + i]);
        assert((e1 + r1)[e1.len() + i] == (e2 + r2)[e2.len() + i]);
    }
    assert(r1 =~= r2);
}

/// A quote-terminated escaped segment determines both the unescaped text
/// and what follows the closing quote.
proof fn lemma_escape_segment(x1: Seq<char>, x2: Seq<char>, t1: Seq<char>, t2: Seq<char>)
    requires
        spec_escape(x1) + seq!['"'] + t1 == spec_escape(x2) + seq!['"'] + t2,
    ensures
        x1 == x2,
        t1 == t2,
    decreases x1.len(),
{
    let lhs = spec_escape(x1) + seq!['"'] + t1;
    let rhs = spec_escape(x2) + seq!['"'] + t2;
    if x1.len() == 0 {
        assert(lhs[0] == '"');
        if x2.len() > 0 {
            lemma_esc_head(x2[0]);
            assert(spec_escape(x2)[0] == esc_char(x2[0])[0]);
            assert(rhs[0] == spec_escape(x2)[0]);
            assert(false);
        }
        assert(x1 =~= x2);
        assert(spec_escape(x1) =~= Seq::<char>::empty());
        assert(spec_escape(x2) =~= Seq::<char>::empty());
        assert((spec_escape(x1) + seq!['"']).len() == 1);
        assert((spec_escape(x2) + seq!['"']).len() == 1);
        assert(lhs.len() == 1 + t1.len());
        assert(rhs.len() == 1 + t2.len());
        assert(t1.len() == t2.len());
        assert forall|i: int| 0 <= i < t1.len() implies t1[i] == t2[i] by {
            assert(lhs[1 + i] == t1[i]);
            assert(rhs[1 + i] == t2[i]);
            assert(lhs[1 + i] == rhs[1 + i]);
        }
        assert(t1 =~= t2);
    } else {
        if x2.len() == 0 {
            lemma_esc_head(x1[0]);
            assert(spec_escape(x1)[0] == esc_char(x1[0])[0]);
            assert(lhs[0] == spec_escape(x1)[0]);
            assert(rhs[0] == '"');
            assert(false);
        }
        let a1 = spec_escape(x1.drop_first()) + seq!['"'] + t1;
        let a2 = spec_escape(x2.drop_first()) + seq!['"'] + t2;
        assert(lhs =~= esc_char(x1[0]) + a1);
        assert(rhs =~= esc_char(x2[0]) + a2);
        lemma_esc_prefix(x1[0], x2[0], a1, a2);
        lemma_escape_segment(x1.drop_first(), x2.drop_first(), t1, t2);
        assert forall|i: int| 0 <= i < x1.len() implies x1[i] == x2[i] by {
            if i > 0 {
                assert(x1[i] == x1.drop_first()[i - 1]);
                assert(x2[i] == x2.drop_first()[i - 1]);
            }
        }
        assert(x1 =~= x2);
    }
}

/// A shared prefix cancels on both sides of an equality.
pub proof fn lemma_strip_prefix(u: Seq<char>, p: Seq<char>, q: Seq<char>)
    requires
        u + p == u + q,
    ensures
        p == q,
{
    assert((u + p).len() == (u + q).len());
    assert((u + p).len() == u.len() + p.len());
    assert((u + q).len() == u.len() + q.len());
    assert(p.len() == q.len());
    assert forall|i: int| 0 <= i < p.len() implies p[i] == q[i] by {
        assert(p[i] == (u + p)[u.len() + i]);
        assert(q[i] == (u + q)[u.len() + i]);
        assert((u + p)[u.len() + i] == (u + q)[u.len() + i]);
    }
    assert(p =~= q);
}

/// A keyed, quoted field determines its text and what follows it.
pub proof fn lemma_keyed_segment(
    key: Seq<char>,
    x1: Seq<char>,
    x2: Seq<char>,
    t1: Seq<char>,
    t2: Seq<char>,
)
    requires
        key + spec_quoted(x1) + t1 == key + spec_quoted(x2) + t2,
    ensures
        x1 == x2,
        t1 == t2,
{
    assert(key + spec_quoted(x1) + t1 =~= (key + seq!['"']) + (spec_escape(x1) + seq!['"'] + t1));
    assert(key + spec_quoted(x2) + t2 =~= (key + seq!['"']) + (spec_escape(x2) + seq!['"'] + t2));
    lemma_strip_prefix(
        key + seq!['"'],
        spec_escape(x1) + seq!['"'] + t1,
        spec_escape(x2) + seq!['"'] + t2,
    );
    lemma_escape_segment(x1, x2, t1, t2);
}

/// Append `v` in its JSON string form, quotes and escapes included.
pub fn push_quoted(v: &Vec<char>, out: &mut Vec<char>)
    ensures
        final(out)@ == old(out)@ + spec_quoted(v@),
{
    out.push('"');
    push_escaped(v, out);
    out.push('"');
    assert(final(out)@ =~= old(out)@ + spec_quoted(v@));
}

} // verus!
