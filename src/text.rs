use vstd::prelude::*;

verus! {

/// The characters that Rust's `char::is_ascii_whitespace` accepts.
pub open spec fn is_ascii_ws(c: char) -> bool {
    c == ' ' || c == '\t' || c == '\n' || c == '\x0C' || c == '\r'
}

pub fn is_ascii_ws_char(c: char) -> (r: bool)
    ensures
        r == is_ascii_ws(c),
{
    c == ' ' || c == '\t' || c == '\n' || c == '\x0C' || c == '\r'
}

/// The decimal digit for a value below ten.
pub open spec fn digit_char(d: nat) -> char {
    if d == 0 { '0' }
    else if d == 1 { '1' }
    else if d == 2 { '2' }
    else if d == 3 { '3' }
    else if d == 4 { '4' }
    else if d == 5 { '5' }
    else if d == 6 { '6' }
    else if d == 7 { '7' }
    else if d == 8 { '8' }
    else { '9' }
}

/// The decimal notation of `n`, without sign or leading zeros.
pub open spec fn decimal(n: nat) -> Seq<char>
    decreases n,
{
    if n < 10 {
        seq![digit_char(n)]
    } else {
        decimal(n / 10).push(digit_char(n % 10))
    }
}

/// Relies on the `Display` impl of `usize` (through `ToString`): it writes
/// the value in decimal, without sign, padding or leading zeros.
#[verifier::external_body]
pub(crate) fn decimal_text(n: usize) -> (r: String)
    ensures
        r@ == decimal(n as nat),
{
    n.to_string()
}

/// Whether `a` and `b` hold the same characters.
pub fn same_text(a: &str, b: &str) -> (r: bool)
    ensures
        r == (a@ == b@),
{
    let n = a.unicode_len();
    let r = equals_at(a, 0, n, b);
    assert(a@.subrange(0, n as int) == a@);
    r
}

/// Whether the characters of `s` from `from` on begin with those of `prefix`.
pub open spec fn has_prefix_at(s: Seq<char>, from: int, prefix: Seq<char>) -> bool {
    from + prefix.len() <= s.len() && s.subrange(from, from + prefix.len()) == prefix
}

/// Whether `s[from..to]` begins with `prefix`.
pub fn prefix_at(s: &str, from: usize, to: usize, prefix: &str) -> (r: bool)
    requires
        from <= to <= s@.len(),
    ensures
        r == has_prefix_at(s@.subrange(from as int, to as int), 0, prefix@),
{
    let ghost t = s@.subrange(from as int, to as int);
    let m = prefix.unicode_len();
    if m > to - from {
        return false;
    }
    let mut i: usize = 0;
    while i < m
        invariant
            m == prefix@.len(),
            from + m <= to <= s@.len(),
            t == s@.subrange(from as int, to as int),
            i <= m,
            t.subrange(0, i as int) == prefix@.subrange(0, i as int),
        decreases m - i,
    {
        if s.get_char(from + i) != prefix.get_char(i) {
            assert(t.subrange(0, m as int)[i as int] != prefix@[i as int]);
            return false;
        }
        assert(t.subrange(0, i + 1) == t.subrange(0, i as int).push(t[i as int]));
        assert(prefix@.subrange(0, i + 1) == prefix@.subrange(0, i as int).push(prefix@[i as int]));
        i = i + 1;
    }
    assert(prefix@ == prefix@.subrange(0, m as int));
    true
}

/// Whether `s[from..to]` holds the same characters as `word`.
pub fn equals_at(s: &str, from: usize, to: usize, word: &str) -> (r: bool)
    requires
        from <= to <= s@.len(),
    ensures
        r == (s@.subrange(from as int, to as int) == word@),
{
    let ghost t = s@.subrange(from as int, to as int);
    if word.unicode_len() != to - from {
        return false;
    }
    let r = prefix_at(s, from, to, word);
    assert(t == t.subrange(0, word@.len() as int));
    r
}

} // verus!
