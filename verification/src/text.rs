//! Character-level string helpers shared by the rest of the crate.
use vstd::prelude::*;
use vstd::string::*;
use vstd::utf8::*;

verus! {

/// `String::push` appends one character at the end of the string.
pub assume_specification[ String::push ](s: &mut String, ch: char)
    ensures
        final(s)@ == old(s)@.push(ch),
;

/// `s` begins with the characters of `p`.
pub open spec fn has_prefix(s: Seq<char>, p: Seq<char>) -> bool {
    p.len() <= s.len() && s.take(p.len() as int) == p
}

/// `p` occurs in `s` starting at position `i`.
pub open spec fn occurs_at(s: Seq<char>, p: Seq<char>, i: int) -> bool {
    0 <= i && i + p.len() <= s.len() && s.subrange(i, i + p.len()) == p
}

/// What is left of `s` once every occurrence of `p` is taken out, the
/// occurrences being found from left to right without overlapping.
/// An empty `p` leaves `s` as it is.
pub open spec fn remove_matches(s: Seq<char>, p: Seq<char>) -> Seq<char>
    decreases s.len(),
{
    if p.len() == 0 || s.len() == 0 {
        s
    } else if has_prefix(s, p) {
        remove_matches(s.skip(p.len() as int), p)
    } else {
        seq![s[0]] + remove_matches(s.skip(1), p)
    }
}

/// The first `n` bytes of the UTF-8 encoding of `s`, read back as characters.
pub open spec fn byte_prefix(s: Seq<char>, n: int) -> Seq<char> {
    decode_utf8(encode_utf8(s).take(n))
}

/// What a token listing shows of a token: its first five bytes and `...`.
pub open spec fn token_preview(token: Seq<char>) -> Seq<char> {
    byte_prefix(token, 5) + "..."@
}

/// A token can be previewed when its fifth byte ends a character.
pub open spec fn previewable(token: Seq<char>) -> bool {
    is_char_boundary(encode_utf8(token), 5)
}

/// The characters of `s`, in order.
pub fn chars_of(s: &str) -> (v: Vec<char>)
    ensures
        v@ == s@,
{
    let mut v: Vec<char> = Vec::new();
    for c in it: s.chars()
        invariant
            v@ == it.seq().take(it.index() as int),
    {
        v.push(c);
    }
    v
}

/// A `String` that holds the characters of `v`, in order.
pub fn string_of(v: &Vec<char>) -> (s: String)
    ensures
        s@ == v@,
{
    let mut s = String::new();
    let n = v.len();
    for i in 0..n
        invariant
            n == v@.len(),
            s@ == v@.take(i as int),
    {
        s.push(v[i]);
        assert(v@.take(i + 1) == v@.take(i as int).push(v@[i as int]));
    }
    assert(v@.take(n as int) == v@);
    s
}

/// Whether `p` occurs in `s` starting at index `i`.
fn occurs_at_exec(s: &Vec<char>, p: &Vec<char>, i: usize) -> (b: bool)
    requires
        i <= s@.len(),
    ensures
        b == occurs_at(s@, p@, i as int),
{
    if p.len() > s.len() - i {
        return false;
    }
    let m = p.len();
    for j in 0..m
        invariant
            m == p@.len(),
            i + m <= s@.len(),
            i + m <= usize::MAX,
            j <= m,
            forall|k: int| 0 <= k < j ==> s@[i + k] == p@[k],
    {
        if s[i + j] != p[j] {
            assert(s@.subrange(i as int, i + m)[j as int] != p@[j as int]);
            return false;
        }
    }
    assert(s@.subrange(i as int, i + m) =~= p@);
    true
}

/// Whether `s` begins with `prefix`.
pub fn starts_with(s: &str, prefix: &str) -> (b: bool)
    ensures
        b == has_prefix(s@, prefix@),
{
    let sv = chars_of(s);
    let pv = chars_of(prefix);
    let b = occurs_at_exec(&sv, &pv, 0);
    assert(sv@.subrange(0, pv@.len() as int) == sv@.take(pv@.len() as int));
    b
}

/// Whether `a` and `b` hold the same text.
pub fn same_text(a: &str, b: &str) -> (r: bool)
    ensures
        r == (a@ == b@),
{
    let av = chars_of(a);
    let bv = chars_of(b);
    if av.len() != bv.len() {
        return false;
    }
    let r = occurs_at_exec(&av, &bv, 0);
    assert(r ==> av@.subrange(0, bv@.len() as int) =~= av@);
    assert(av@ == bv@ ==> av@.subrange(0, bv@.len() as int) =~= bv@);
    r
}

/// `s` with every occurrence of `pattern` removed, as `str::replace(s, pattern, "")`
/// computes it.
pub fn remove_all(s: &str, pattern: &str) -> (r: String)
    ensures
        r@ == remove_matches(s@, pattern@),
{
    let sv = chars_of(s);
    let pv = chars_of(pattern);
    let n = sv.len();
    let m = pv.len();
    let mut out: Vec<char> = Vec::new();
    if m == 0 {
        return string_of(&sv);
    }
    let mut i: usize = 0;
    assert(sv@.skip(0) == sv@);
    while i < n
        invariant
            n == sv@.len(),
            m == pv@.len(),
            m > 0,
            i <= n,
            out@ + remove_matches(sv@.skip(i as int), pv@) == remove_matches(sv@, pv@),
        decreases n - i,
    {
        let rest = Ghost(sv@.skip(i as int));
        if occurs_at_exec(&sv, &pv, i) {
            assert(rest@.take(m as int) == sv@.subrange(i as int, i + m));
            assert(rest@.skip(m as int) == sv@.skip(i + m));
            i = i + m;
        } else {
            assert(!has_prefix(rest@, pv@)) by {
                if m <= rest@.len() {
                    assert(rest@.take(m as int) == sv@.subrange(i as int, i + m));
                }
            }
            assert(rest@.skip(1) == sv@.skip(i + 1));
            out.push(sv[i]);
            assert(out@ + remove_matches(sv@.skip(i + 1), pv@) == (out@.drop_last() + (seq![sv@[i as int]] + remove_matches(rest@.skip(1), pv@))));
            i = i + 1;
        }
    }
    assert(sv@.skip(n as int) =~= Seq::<char>::empty());
    assert(out@ + remove_matches(sv@.skip(n as int), pv@) == out@);
    string_of(&out)
}

/// Whether a token can be previewed: its fifth byte ends a character.
pub fn previewable_text(token: &str) -> (r: bool)
    ensures
        r == previewable(token@),
{
    token.is_char_boundary(5)
}

/// The first five bytes of an application token followed by `...`: what a
/// token listing shows of a token.
pub fn cut_token(token: &str) -> (r: String)
    requires
        previewable(token@),
    ensures
        r@ == token_preview(token@),
{
    let (head, _tail) = token.split_at(5);
    proof {
        encode_utf8_decode_utf8(head@);
        assert(head.spec_bytes() == token.spec_bytes().take(5));
    }
    let mut r = String::from_str(head);
    r.append("...");
    r
}

/// The character of a decimal digit.
pub open spec fn digit_char(d: nat) -> char {
    ((d + 48) as u8) as char
}

/// The decimal text of `n`, without leading zeros.
pub open spec fn decimal(n: nat) -> Seq<char>
    decreases n,
{
    if n < 10 {
        seq![digit_char(n)]
    } else {
        decimal(n / 10).push(digit_char(n % 10))
    }
}

/// The decimal text of `n`.
pub fn decimal_text(n: u64) -> (r: String)
    ensures
        r@ == decimal(n as nat),
{
    let mut m = n;
    let mut suffix: Vec<char> = Vec::new();
    while m >= 10
        invariant
            decimal(n as nat) == decimal(m as nat) + suffix@,
        decreases m,
    {
        let d = (m % 10) as u8;
        let c = (d + 48) as char;
        suffix.insert(0, c);
        assert(decimal(m as nat) == decimal((m / 10) as nat).push(digit_char((m % 10) as nat)));
        m = m / 10;
        assert(decimal(n as nat) =~= decimal(m as nat) + suffix@);
    }
    let mut all: Vec<char> = Vec::new();
    all.push(((m as u8) + 48) as char);
    let k = suffix.len();
    for i in 0..k
        invariant
            k == suffix@.len(),
            all@ == seq![digit_char(m as nat)] + suffix@.take(i as int),
    {
        all.push(suffix[i]);
        assert(suffix@.take(i + 1) == suffix@.take(i as int).push(suffix@[i as int]));
    }
    assert(suffix@.take(k as int) == suffix@);
    string_of(&all)
}

} // verus!
