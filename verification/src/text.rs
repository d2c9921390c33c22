//! Text building blocks of the generator: decimal numerals, substitution of
//! placeholders, and joining of path components.
use vstd::prelude::*;

verus! {

/// Appends one character with `String::push`.
///
/// Trusted: the string afterwards is the string before with `c` added at its end,
/// as the standard library documents for `String::push`.
#[verifier::external_body]
pub(crate) fn push_char(s: &mut String, c: char)
    ensures
        final(s)@ == old(s)@.push(c),
{
    s.push(c);
}

/// The characters of a string, in order.
pub fn chars_of(s: &str) -> (r: Vec<char>)
    ensures
        r@ == s@,
{
    let mut out: Vec<char> = Vec::new();
    for c in it: s.chars()
        invariant
            it.seq() == s@,
            out@ == it.seq().take(it.index()),
    {
        proof {
            assert(it.seq().take(it.index() + 1) =~= it.seq().take(it.index()).push(c));
        }
        out.push(c);
    }
    proof {
        assert(s@.take(s@.len() as int) =~= s@);
    }
    out
}

/// A string made of the given characters.
pub fn string_of(chars: &Vec<char>) -> (r: String)
    ensures
        r@ == chars@,
{
    let mut out = String::new();
    let mut i: usize = 0;
    while i < chars.len()
        invariant
            0 <= i <= chars@.len(),
            out@ == chars@.take(i as int),
        decreases chars@.len() - i,
    {
        proof {
            assert(chars@.take(i + 1) =~= chars@.take(i as int).push(chars@[i as int]));
        }
        push_char(&mut out, chars[i]);
        i = i + 1;
    }
    proof {
        assert(chars@.take(i as int) =~= chars@);
    }
    out
}

// ---------------------------------------------------------------------------
// Decimal numerals
// ---------------------------------------------------------------------------

/// The decimal digit for `d < 10`.
pub open spec fn digit_char(d: nat) -> char {
    if d == 0 {
        '0'
    } else if d == 1 {
        '1'
    } else if d == 2 {
        '2'
    } else if d == 3 {
        '3'
    } else if d == 4 {
        '4'
    } else if d == 5 {
        '5'
    } else if d == 6 {
        '6'
    } else if d == 7 {
        '7'
    } else if d == 8 {
        '8'
    } else {
        '9'
    }
}

/// The value of a decimal digit character.
pub open spec fn digit_value(c: char) -> nat {
    if c == '1' {
        1
    } else if c == '2' {
        2
    } else if c == '3' {
        3
    } else if c == '4' {
        4
    } else if c == '5' {
        5
    } else if c == '6' {
        6
    } else if c == '7' {
        7
    } else if c == '8' {
        8
    } else if c == '9' {
        9
    } else {
        0
    }
}

pub open spec fn is_digit(c: char) -> bool {
    '0' <= c && c <= '9'
}

/// The shortest decimal numeral of `n`, as `u64::to_string` writes it.
pub open spec fn decimal(n: nat) -> Seq<char>
    decreases n,
{
    if n < 10 {
        seq![digit_char(n)]
    } else {
        decimal(n / 10).push(digit_char(n % 10))
    }
}

/// The number that a string of decimal digits denotes.
pub open spec fn numeral_value(s: Seq<char>) -> nat
    decreases s.len(),
{
    if s.len() == 0 {
        0
    } else {
        numeral_value(s.drop_last()) * 10 + digit_value(s.last())
    }
}

fn digit_char_exec(d: u64) -> (c: char)
    requires
        d < 10,
    ensures
        c == digit_char(d as nat),
{
    if d == 0 {
        '0'
    } else if d == 1 {
        '1'
    } else if d == 2 {
        '2'
    } else if d == 3 {
        '3'
    } else if d == 4 {
        '4'
    } else if d == 5 {
        '5'
    } else if d == 6 {
        '6'
    } else if d == 7 {
        '7'
    } else if d == 8 {
        '8'
    } else {
        '9'
    }
}

/// Appends the decimal numeral of `n`.
pub fn append_decimal(out: &mut String, n: u64)
    ensures
        final(out)@ == old(out)@ + decimal(n as nat),
    decreases n,
{
    if n < 10 {
        push_char(out, digit_char_exec(n));
    } else {
        append_decimal(out, n / 10);
        push_char(out, digit_char_exec(n % 10));
        proof {
            assert(old(out)@ + decimal(n as nat) =~= (old(out)@ + decimal((n / 10) as nat)).push(
                digit_char((n % 10) as nat),
            ));
        }
    }
}

/// The decimal numeral of `n`, as `n.to_string()` writes it.
pub fn decimal_string(n: u64) -> (r: String)
    ensures
        r@ == decimal(n as nat),
{
    let mut out = String::new();
    append_decimal(&mut out, n);
    proof {
        assert(Seq::<char>::empty() + decimal(n as nat) =~= decimal(n as nat));
    }
    out
}

proof fn lemma_digit_roundtrip(d: nat)
    requires
        d < 10,
    ensures
        digit_value(digit_char(d)) == d,
        is_digit(digit_char(d)),
{
}

/// The numeral of `n` is made of decimal digits, has no leading zero unless it is
/// `0` itself, and denotes `n`.
pub proof fn law_decimal_denotes(n: nat)
    ensures
        numeral_value(decimal(n)) == n,
        decimal(n).len() > 0,
        forall|i: int| 0 <= i < decimal(n).len() ==> is_digit(#[trigger] decimal(n)[i]),
        decimal(n)[0] == '0' ==> n == 0,
    decreases n,
{
    lemma_digit_roundtrip(n % 10);
    if n >= 10 {
        law_decimal_denotes(n / 10);
        let d = decimal(n);
        assert(d.drop_last() =~= decimal(n / 10));
        assert(d[0] == decimal(n / 10)[0]);
        assert(numeral_value(d) == numeral_value(decimal(n / 10)) * 10 + digit_value(d.last()));
        assert(n == (n / 10) * 10 + n % 10);
    } else {
        let d = decimal(n);
        assert(d.drop_last() =~= Seq::<char>::empty());
        assert(numeral_value(d) == numeral_value(d.drop_last()) * 10 + digit_value(d.last()));
    }
}

// ---------------------------------------------------------------------------
// Hexadecimal numerals
// ---------------------------------------------------------------------------

/// The lower-case hexadecimal digit for `d < 16`.
pub open spec fn hex_digit(d: nat) -> char {
    if d < 10 {
        digit_char(d)
    } else if d == 10 {
        'a'
    } else if d == 11 {
        'b'
    } else if d == 12 {
        'c'
    } else if d == 13 {
        'd'
    } else if d == 14 {
        'e'
    } else {
        'f'
    }
}

/// The value of a lower-case hexadecimal digit.
pub open spec fn hex_digit_value(c: char) -> nat {
    if c == 'a' {
        10
    } else if c == 'b' {
        11
    } else if c == 'c' {
        12
    } else if c == 'd' {
        13
    } else if c == 'e' {
        14
    } else if c == 'f' {
        15
    } else {
        digit_value(c)
    }
}

/// The shortest lower-case hexadecimal numeral of `n`, as `format!("{:x}", n)` writes it.
pub open spec fn hex(n: nat) -> Seq<char>
    decreases n,
{
    if n < 16 {
        seq![hex_digit(n)]
    } else {
        hex(n / 16).push(hex_digit(n % 16))
    }
}

/// The number that a string of hexadecimal digits denotes.
pub open spec fn hex_value(s: Seq<char>) -> nat
    decreases s.len(),
{
    if s.len() == 0 {
        0
    } else {
        hex_value(s.drop_last()) * 16 + hex_digit_value(s.last())
    }
}

fn hex_digit_exec(d: u64) -> (c: char)
    requires
        d < 16,
    ensures
        c == hex_digit(d as nat),
{
    if d < 10 {
        digit_char_exec(d)
    } else if d == 10 {
        'a'
    } else if d == 11 {
        'b'
    } else if d == 12 {
        'c'
    } else if d == 13 {
        'd'
    } else if d == 14 {
        'e'
    } else {
        'f'
    }
}

/// Appends the hexadecimal numeral of `n`.
pub fn append_hex(out: &mut String, n: u64)
    ensures
        final(out)@ == old(out)@ + hex(n as nat),
    decreases n,
{
    if n < 16 {
        push_char(out, hex_digit_exec(n));
    } else {
        append_hex(out, n / 16);
        push_char(out, hex_digit_exec(n % 16));
        proof {
            assert(old(out)@ + hex(n as nat) =~= (old(out)@ + hex((n / 16) as nat)).push(
                hex_digit((n % 16) as nat),
            ));
        }
    }
}

/// The hexadecimal numeral of `n`, as `format!("{:x}", n)` writes it.
pub fn hex_string(n: u64) -> (r: String)
    ensures
        r@ == hex(n as nat),
{
    let mut out = String::new();
    append_hex(&mut out, n);
    proof {
        assert(Seq::<char>::empty() + hex(n as nat) =~= hex(n as nat));
    }
    out
}

proof fn lemma_hex_digit_roundtrip(d: nat)
    requires
        d < 16,
    ensures
        hex_digit_value(hex_digit(d)) == d,
{
}

/// The hexadecimal numeral of `n` is not empty, has no leading zero unless it is
/// `0` itself, and denotes `n`.
pub proof fn law_hex_denotes(n: nat)
    ensures
        hex_value(hex(n)) == n,
        hex(n).len() > 0,
        hex(n)[0] == '0' ==> n == 0,
    decreases n,
{
    lemma_hex_digit_roundtrip(n % 16);
    if n >= 16 {
        law_hex_denotes(n / 16);
        let h = hex(n);
        assert(h.drop_last() =~= hex(n / 16));
        assert(h[0] == hex(n / 16)[0]);
        assert(hex_value(h) == hex_value(hex(n / 16)) * 16 + hex_digit_value(h.last()));
        assert(n == (n / 16) * 16 + n % 16);
    } else {
        let h = hex(n);
        assert(h.drop_last() =~= Seq::<char>::empty());
        assert(hex_value(h) == hex_value(h.drop_last()) * 16 + hex_digit_value(h.last()));
    }
}

// ---------------------------------------------------------------------------
// Substitution
// ---------------------------------------------------------------------------

/// `s` with every occurrence of `p` replaced by `r`, as `str::replace` does it:
/// occurrences are taken from the left and do not overlap; an empty `p` occurs
/// before every character and at the end.
pub open spec fn replace_all(s: Seq<char>, p: Seq<char>, r: Seq<char>) -> Seq<char>
    decreases s.len(),
{
    if s.len() == 0 {
        if p.len() == 0 {
            r
        } else {
            Seq::empty()
        }
    } else if p.len() > 0 && p.len() <= s.len() && s.take(p.len() as int) == p {
        r + replace_all(s.skip(p.len() as int), p, r)
    } else if p.len() == 0 {
        r + seq![s[0]] + replace_all(s.skip(1), p, r)
    } else {
        seq![s[0]] + replace_all(s.skip(1), p, r)
    }
}

/// Whether `p` occurs in `s` starting at `at`.
pub open spec fn occurs_at(s: Seq<char>, p: Seq<char>, at: int) -> bool {
    0 <= at && at + p.len() <= s.len() && s.subrange(at, at + p.len()) == p
}

/// Whether `p` occurs in `s` at all.
pub open spec fn occurs_in(s: Seq<char>, p: Seq<char>) -> bool {
    exists|at: int| occurs_at(s, p, at)
}

/// Whether `p` occurs in `s` starting at `at`.
fn occurs_at_exec(s: &Vec<char>, p: &Vec<char>, at: usize) -> (r: bool)
    requires
        at <= s@.len(),
    ensures
        r == occurs_at(s@, p@, at as int),
{
    if p.len() > s.len() - at {
        return false;
    }
    let mut j: usize = 0;
    while j < p.len()
        invariant
            at + p@.len() <= s@.len(),
            s@.len() == s.len(),
            0 <= j <= p@.len(),
            forall|k: int| 0 <= k < j ==> s@[at + k] == p@[k],
        decreases p@.len() - j,
    {
        if s[at + j] != p[j] {
            proof {
                assert(s@.subrange(at as int, at + p@.len())[j as int] != p@[j as int]);
            }
            return false;
        }
        j = j + 1;
    }
    proof {
        assert(s@.subrange(at as int, at + p@.len()) =~= p@);
    }
    true
}

/// `s` with every occurrence of `pattern` replaced by `replacement`, as
/// `s.replace(pattern, replacement)` gives it.
pub fn replace_text(s: &str, pattern: &str, replacement: &str) -> (r: String)
    ensures
        r@ == replace_all(s@, pattern@, replacement@),
{
    let sc = chars_of(s);
    let pc = chars_of(pattern);
    let ghost p = pattern@;
    let ghost rep = replacement@;
    let mut out = String::new();
    let mut i: usize = 0;
    proof {
        assert(sc@.skip(0) =~= sc@);
    }
    while i < sc.len()
        invariant
            0 <= i <= sc@.len(),
            sc@ == s@,
            pc@ == p,
            rep == replacement@,
            replace_all(s@, p, rep) == out@ + replace_all(sc@.skip(i as int), p, rep),
        decreases sc@.len() - i,
    {
        let ghost rest = sc@.skip(i as int);
        if pc.len() > 0 && occurs_at_exec(&sc, &pc, i) {
            proof {
                assert(rest.take(p.len() as int) =~= sc@.subrange(i as int, i + p.len()));
                assert(rest.skip(p.len() as int) =~= sc@.skip(i + p.len()));
            }
            out.append(replacement);
            i = i + pc.len();
        } else {
            proof {
                assert(rest[0] == sc@[i as int]);
                assert(rest.skip(1) =~= sc@.skip(i + 1));
                if p.len() > 0 && p.len() <= rest.len() {
                    assert(rest.take(p.len() as int) =~= sc@.subrange(i as int, i + p.len()));
                }
            }
            if pc.len() == 0 {
                out.append(replacement);
            }
            push_char(&mut out, sc[i]);
            i = i + 1;
        }
    }
    if pc.len() == 0 {
        out.append(replacement);
    }
    proof {
        assert(sc@.skip(i as int) =~= Seq::<char>::empty());
    }
    out
}

/// Where `p` (not empty) does not occur in `s`, replacing it changes nothing.
pub proof fn law_replace_absent(s: Seq<char>, p: Seq<char>, r: Seq<char>)
    requires
        p.len() > 0,
        !occurs_in(s, p),
    ensures
        replace_all(s, p, r) == s,
    decreases s.len(),
{
    if s.len() > 0 {
        if p.len() <= s.len() && s.take(p.len() as int) == p {
            assert(occurs_at(s, p, 0)) by {
                assert(s.subrange(0, p.len() as int) =~= s.take(p.len() as int));
            }
        }
        assert forall|at: int| !occurs_at(s.skip(1), p, at) by {
            if occurs_at(s.skip(1), p, at) {
                assert(s.skip(1).subrange(at, at + p.len()) =~= s.subrange(at + 1, at + 1 + p.len()));
                assert(occurs_at(s, p, at + 1));
            }
        }
        law_replace_absent(s.skip(1), p, r);
        assert(seq![s[0]] + s.skip(1) =~= s);
    }
}

/// Replacement works from the left: where the first occurrence of a non-empty
/// `p` in `a + p + b` is the one right after `a`, the result is `a` unchanged,
/// then `r`, then the rest `b` with its own occurrences replaced.
pub proof fn law_replace_leftmost(a: Seq<char>, p: Seq<char>, b: Seq<char>, r: Seq<char>)
    requires
        p.len() > 0,
        forall|at: int| 0 <= at < a.len() ==> !occurs_at(a + p + b, p, at),
    ensures
        replace_all(a + p + b, p, r) == a + r + replace_all(b, p, r),
    decreases a.len(),
{
    let s = a + p + b;
    if a.len() == 0 {
        assert(s.take(p.len() as int) =~= p);
        assert(s.skip(p.len() as int) =~= b);
        assert(a + r =~= r);
    } else {
        assert(!occurs_at(s, p, 0));
        if p.len() <= s.len() && s.take(p.len() as int) == p {
            assert(s.subrange(0, p.len() as int) =~= s.take(p.len() as int));
        }
        let a1 = a.skip(1);
        assert(s.skip(1) =~= a1 + p + b);
        assert forall|at: int| 0 <= at < a1.len() implies !occurs_at(a1 + p + b, p, at) by {
            if occurs_at(a1 + p + b, p, at) {
                assert((a1 + p + b).subrange(at, at + p.len()) =~= s.subrange(
                    at + 1,
                    at + 1 + p.len(),
                ));
                assert(occurs_at(s, p, at + 1));
            }
        }
        law_replace_leftmost(a1, p, b, r);
        assert(s[0] == a[0]);
        assert(seq![a[0]] + a1 =~= a);
        assert(seq![s[0]] + (a1 + r + replace_all(b, p, r)) =~= a + r + replace_all(b, p, r));
    }
}

/// The text after each replacement pair in turn has been applied.
pub open spec fn replace_each(s: Seq<char>, pairs: Seq<(Seq<char>, Seq<char>)>) -> Seq<char>
    decreases pairs.len(),
{
    if pairs.len() == 0 {
        s
    } else {
        replace_all(replace_each(s, pairs.drop_last()), pairs.last().0, pairs.last().1)
    }
}

/// The models of replacement pairs.
pub open spec fn pairs_view(pairs: Seq<(String, String)>) -> Seq<(Seq<char>, Seq<char>)> {
    pairs.map_values(|e: (String, String)| (e.0@, e.1@))
}

/// Applies each replacement pair in turn to a template's text.
pub fn apply_replacements(content: &str, replacements: &Vec<(String, String)>) -> (r: String)
    ensures
        r@ == replace_each(content@, pairs_view(replacements@)),
{
    let ghost pairs = pairs_view(replacements@);
    let mut text = String::from_str(content);
    let mut i: usize = 0;
    proof {
        assert(pairs.take(0) =~= Seq::<(Seq<char>, Seq<char>)>::empty());
    }
    while i < replacements.len()
        invariant
            0 <= i <= replacements@.len(),
            pairs == pairs_view(replacements@),
            text@ == replace_each(content@, pairs.take(i as int)),
        decreases replacements@.len() - i,
    {
        proof {
            assert(pairs.take(i + 1).drop_last() =~= pairs.take(i as int));
        }
        let placeholder = replacements[i].0.as_str();
        let value = replacements[i].1.as_str();
        text = replace_text(text.as_str(), placeholder, value);
        i = i + 1;
    }
    proof {
        assert(pairs.take(i as int) =~= pairs);
    }
    text
}

// ---------------------------------------------------------------------------
// Paths
// ---------------------------------------------------------------------------

/// `base` joined with `part`, as `PathBuf::join` does on a Unix system: an
/// absolute `part` (one that begins with `/`) replaces `base`; otherwise a
/// separator is put between them unless `base` is empty or already ends with one.
pub open spec fn join(base: Seq<char>, part: Seq<char>) -> Seq<char> {
    if part.len() > 0 && part[0] == '/' {
        part
    } else if base.len() == 0 {
        part
    } else if base.last() == '/' {
        base + part
    } else {
        base + seq!['/'] + part
    }
}

/// `base` joined with `part`, as `PathBuf::join` does on a Unix system.
pub fn join_path(base: &str, part: &str) -> (r: String)
    ensures
        r@ == join(base@, part@),
{
    if part.unicode_len() > 0 && part.get_char(0) == '/' {
        return String::from_str(part);
    }
    let n = base.unicode_len();
    if n == 0 {
        return String::from_str(part);
    }
    let mut out = String::from_str(base);
    if base.get_char(n - 1) != '/' {
        push_char(&mut out, '/');
    }
    out.append(part);
    out
}

} // verus!
