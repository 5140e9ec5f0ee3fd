use vstd::prelude::*;

use crate::text::{decimal, decimal_text, equals_at, has_prefix_at, is_ascii_ws, is_ascii_ws_char, prefix_at, same_text};

verus! {

/// Bold red, as the compiler writes `error`.
pub const CSI_BOLD_RED: &'static str = "\u{1b}[1m\u{1b}[38;5;9m";

/// Bold yellow, as the compiler writes `warning`.
pub const CSI_BOLD_YELLOW: &'static str = "\u{1b}[1m\u{1b}[33m";

/// Bold blue, as the compiler writes the arrow of a location.
pub const CSI_BOLD_BLUE: &'static str = "\u{1b}[1m\u{1b}[38;5;12m";

/// Bold, with no colour.
pub const CSI_BOLD: &'static str = "\u{1b}[1m";

/// A run of text with the escape sequence that styles it.
#[derive(Debug, Clone, PartialEq, Eq, Default)]
pub struct TString {
    pub csi: String,
    pub raw: String,
}

/// A line of terminal output, cut into styled runs.
#[derive(Debug, Clone, PartialEq, Eq, Default)]
pub struct TLine {
    pub strings: Vec<TString>,
}

/// Either Warning or Error.
#[derive(Debug, Clone, Copy, PartialEq, Eq, Structural)]
pub enum Kind {
    Warning,
    Error,
}

#[derive(Debug, Clone, Copy, PartialEq, Eq, Structural)]
pub enum LineType {
    /// the start of either an error or a warning
    Title(Kind),
    /// a line locating the problem
    Location,
    /// this line marks the end of the interesting content
    End,
    /// any other line
    Normal,
}

/// The numbered mark drawn in front of a title line: its label is the item
/// number, centered on three columns, and its colour follows the kind.
#[derive(Debug, Clone, PartialEq, Eq)]
pub struct Badge {
    pub kind: Kind,
    pub label: String,
}

pub open spec fn spaces(n: nat) -> Seq<char> {
    Seq::new(n, |i: int| ' ')
}

/// `d` centered on three columns, the odd space going to the right.
pub open spec fn centered3(d: Seq<char>) -> Seq<char> {
    if d.len() >= 3 {
        d
    } else {
        let pad = (3 - d.len()) as nat;
        spaces(pad / 2) + d + spaces((pad - pad / 2) as nat)
    }
}

/// Whether every character of `s` is ASCII whitespace.
pub open spec fn all_spaces(s: Seq<char>) -> bool {
    forall|k: int| 0 <= k < s.len() ==> is_ascii_ws(#[trigger] s[k])
}

/// The first index from `i` on that holds no whitespace (or the length).
pub open spec fn skip_ws(s: Seq<char>, i: int) -> int
    decreases s.len() - i,
{
    if i < 0 || i >= s.len() || !is_ascii_ws(s[i]) {
        i
    } else {
        skip_ws(s, i + 1)
    }
}

/// The first index from `i` on that holds whitespace (or the length).
pub open spec fn token_end(s: Seq<char>, i: int) -> int
    decreases s.len() - i,
{
    if i < 0 || i >= s.len() || is_ascii_ws(s[i]) {
        i
    } else {
        token_end(s, i + 1)
    }
}

/// Where the next whitespace-separated token after index `i` starts and ends.
pub open spec fn token_bounds(s: Seq<char>, i: int) -> (int, int) {
    let a = skip_ws(s, i);
    (a, token_end(s, a))
}

pub open spec fn is_digit(c: char) -> bool {
    '0' <= c && c <= '9'
}

pub open spec fn all_digits(t: Seq<char>) -> bool {
    forall|k: int| 0 <= k < t.len() ==> is_digit(#[trigger] t[k])
}

/// The value of a string of decimal digits.
pub open spec fn digits_value(t: Seq<char>) -> nat
    decreases t.len(),
{
    if t.len() == 0 {
        0
    } else {
        digits_value(t.drop_last()) * 10 + ((t.last() as u32) - ('0' as u32)) as nat
    }
}

/// What `str::parse::<usize>` accepts: an optional `+`, then at least one
/// decimal digit, for a value that fits in `usize`.
pub open spec fn is_usize_literal(t: Seq<char>) -> bool {
    let d = if t.len() > 0 && t[0] == '+' { t.drop_first() } else { t };
    d.len() > 0 && all_digits(d) && digits_value(d) <= usize::MAX
}

/// Whether `s` starts with something like "15 warnings emitted": a number,
/// then `warning` or `warnings`, then a token starting with `emitted`.
pub open spec fn starts_with_n_warnings_emitted(s: Seq<char>) -> bool {
    let (a1, b1) = token_bounds(s, 0);
    let (a2, b2) = token_bounds(s, b1);
    let (a3, b3) = token_bounds(s, b2);
    &&& a1 < s.len()
    &&& is_usize_literal(s.subrange(a1, b1))
    &&& a2 < s.len()
    &&& (s.subrange(a2, b2) == "warnings"@ || s.subrange(a2, b2) == "warning"@)
    &&& a3 < s.len()
    &&& has_prefix_at(s.subrange(a3, b3), 0, "emitted"@)
}

/// The kind of a line, read from its first two styled runs.
pub open spec fn line_type_of(t: TLine) -> LineType {
    if t.strings@.len() < 2 {
        LineType::Normal
    } else {
        let c1 = t.strings@[0].csi@;
        let r1 = t.strings@[0].raw@;
        let c2 = t.strings@[1].csi@;
        let r2 = t.strings@[1].raw@;
        if c1 == CSI_BOLD_RED@ && r1 == "error"@ && c2 == CSI_BOLD@ && has_prefix_at(
            r2,
            0,
            ": aborting due to"@,
        ) {
            LineType::End
        } else if c1 == CSI_BOLD_RED@ && r1 == "error"@ && c2 == CSI_BOLD@ {
            LineType::Title(Kind::Error)
        } else if c1 == CSI_BOLD_YELLOW@ && r1 == "warning"@ && starts_with_n_warnings_emitted(r2) {
            LineType::End
        } else if c1 == CSI_BOLD_YELLOW@ && r1 == "warning"@ {
            LineType::Title(Kind::Warning)
        } else if c1.len() == 0 && all_spaces(r1) && c2 == CSI_BOLD_BLUE@ && r2 == "--> "@ {
            LineType::Location
        } else {
            LineType::Normal
        }
    }
}

impl LineType {
    pub fn cols(self) -> (r: usize)
        ensures
            r == (if self is Title { 3usize } else { 0usize }),
    {
        match self {
            Self::Title(_) => 3,
            _ => 0,
        }
    }

    /// The badge to draw in front of the line: only titles have one.
    pub fn draw(self, item_idx: usize) -> (r: Option<Badge>)
        ensures
            match self {
                LineType::Title(k) => r is Some && r->0.kind == k && r->0.label@ == centered3(
                    decimal(item_idx as nat),
                ),
                _ => r is None,
            },
    {
        match self {
            Self::Title(kind) => Some(Badge { kind, label: centered_label(item_idx) }),
            _ => None,
        }
    }
}

fn centered_label(n: usize) -> (r: String)
    ensures
        r@ == centered3(decimal(n as nat)),
{
    let d = decimal_text(n);
    let len = d.as_str().unicode_len();
    proof {
        reveal_strlit(" ");
        assert(spaces(0) == Seq::<char>::empty());
        assert(spaces(1) == seq![' ']);
    }
    if len >= 3 {
        d
    } else if len == 2 {
        let r = d.concat(" ");
        assert(r@ == spaces(0) + decimal(n as nat) + spaces(1));
        r
    } else if len == 1 {
        let r = String::from_str(" ").concat(d.as_str()).concat(" ");
        r
    } else {
        let r = String::from_str(" ").concat(d.as_str()).concat("  ");
        proof {
            reveal_strlit("  ");
            assert(spaces(2) == seq![' ', ' ']);
        }
        r
    }
}

/// Whether `s` holds only ASCII whitespace.
pub fn is_spaces(s: &str) -> (r: bool)
    ensures
        r == all_spaces(s@),
{
    let n = s.unicode_len();
    let mut i: usize = 0;
    while i < n
        invariant
            n == s@.len(),
            i <= n,
            forall|k: int| 0 <= k < i ==> is_ascii_ws(#[trigger] s@[k]),
        decreases n - i,
    {
        if !is_ascii_ws_char(s.get_char(i)) {
            return false;
        }
        i = i + 1;
    }
    true
}

fn skip_ws_from(s: &str, n: usize, i: usize) -> (r: usize)
    requires
        n == s@.len(),
        i <= n,
    ensures
        r == skip_ws(s@, i as int),
        i <= r <= n,
{
    let mut j = i;
    while j < n && is_ascii_ws_char(s.get_char(j))
        invariant
            n == s@.len(),
            i <= j <= n,
            skip_ws(s@, j as int) == skip_ws(s@, i as int),
        decreases n - j,
    {
        j = j + 1;
    }
    j
}

fn token_end_from(s: &str, n: usize, i: usize) -> (r: usize)
    requires
        n == s@.len(),
        i <= n,
    ensures
        r == token_end(s@, i as int),
        i <= r <= n,
{
    let mut j = i;
    while j < n && !is_ascii_ws_char(s.get_char(j))
        invariant
            n == s@.len(),
            i <= j <= n,
            token_end(s@, j as int) == token_end(s@, i as int),
        decreases n - j,
    {
        j = j + 1;
    }
    j
}

proof fn lemma_digits_value_grows(t: Seq<char>, k: int)
    requires
        0 <= k <= t.len(),
    ensures
        digits_value(t.subrange(0, k)) <= digits_value(t),
    decreases t.len(),
{
    if k < t.len() {
        lemma_digits_value_grows(t.drop_last(), k);
        assert(t.drop_last().subrange(0, k) == t.subrange(0, k));
    } else {
        assert(t.subrange(0, k) == t);
    }
}

/// Whether `s[from..to]` is what `str::parse::<usize>` accepts.
fn parses_usize(s: &str, from: usize, to: usize) -> (r: bool)
    requires
        from <= to <= s@.len(),
    ensures
        r == is_usize_literal(s@.subrange(from as int, to as int)),
{
    let ghost t = s@.subrange(from as int, to as int);
    let mut start = from;
    if from < to && s.get_char(from) == '+' {
        start = from + 1;
    }
    let ghost d = s@.subrange(start as int, to as int);
    assert(d == (if t.len() > 0 && t[0] == '+' { t.drop_first() } else { t }));
    if start == to {
        return false;
    }
    let mut value: usize = 0;
    let mut i = start;
    while i < to
        invariant
            from <= start <= i <= to <= s@.len(),
            d == s@.subrange(start as int, to as int),
            t == s@.subrange(from as int, to as int),
            d == (if t.len() > 0 && t[0] == '+' { t.drop_first() } else { t }),
            all_digits(d.subrange(0, i - start)),
            value as nat == digits_value(d.subrange(0, i - start)),
        decreases to - i,
    {
        let c = s.get_char(i);
        assert(d[i - start] == c);
        if c < '0' || c > '9' {
            assert(!is_digit(d[i - start]));
            assert(!all_digits(d));
            return false;
        }
        let ghost p = d.subrange(0, i - start + 1);
        assert(p.drop_last() == d.subrange(0, i - start));
        assert(p.last() == c);
        let digit = (c as u32 - '0' as u32) as usize;
        assert(digits_value(p) == value * 10 + digit);
        let next = match value.checked_mul(10) {
            Some(v) => v.checked_add(digit),
            None => None,
        };
        match next {
            Some(v) => {
                value = v;
            },
            None => {
                proof {
                    assert(digits_value(p) > usize::MAX);
                    if all_digits(d) {
                        lemma_digits_value_grows(d, i - start + 1);
                    }
                }
                return false;
            },
        }
        assert forall|k: int| 0 <= k < p.len() implies is_digit(#[trigger] p[k]) by {
            if k < i - start {
                assert(p[k] == d.subrange(0, i - start)[k]);
            }
        }
        i = i + 1;
    }
    assert(d.subrange(0, i - start) == d);
    true
}

/// Check if the string starts with something like "15 warnings emitted".
pub fn is_n_warnings_emitted(s: &str) -> (r: bool)
    ensures
        r == starts_with_n_warnings_emitted(s@),
{
    let n = s.unicode_len();
    let a1 = skip_ws_from(s, n, 0);
    let b1 = token_end_from(s, n, a1);
    if a1 >= n {
        return false;
    }
    if !parses_usize(s, a1, b1) {
        return false;
    }
    let a2 = skip_ws_from(s, n, b1);
    let b2 = token_end_from(s, n, a2);
    if a2 >= n {
        return false;
    }
    if !equals_at(s, a2, b2, "warnings") && !equals_at(s, a2, b2, "warning") {
        return false;
    }
    let a3 = skip_ws_from(s, n, b2);
    let b3 = token_end_from(s, n, a3);
    if a3 >= n {
        return false;
    }
    prefix_at(s, a3, b3, "emitted")
}

impl<'a> From<&'a TLine> for LineType {
    fn from(content: &'a TLine) -> (r: LineType)
        ensures
            r == line_type_of(*content),
    {
        if content.strings.len() < 2 {
            return LineType::Normal;  // empty line
        }
        let ts1 = &content.strings[0];
        let ts2 = &content.strings[1];
        let c1 = ts1.csi.as_str();
        let r1 = ts1.raw.as_str();
        let c2 = ts2.csi.as_str();
        let r2 = ts2.raw.as_str();
        let r2_len = r2.unicode_len();
        if same_text(c1, CSI_BOLD_RED) && same_text(r1, "error") && same_text(c2, CSI_BOLD) {
            if prefix_at(r2, 0, r2_len, ": aborting due to") {
                assert(r2@.subrange(0, r2_len as int) == r2@);
                LineType::End
            } else {
                assert(r2@.subrange(0, r2_len as int) == r2@);
                LineType::Title(Kind::Error)
            }
        } else if same_text(c1, CSI_BOLD_YELLOW) && same_text(r1, "warning") {
            if is_n_warnings_emitted(r2) {
                LineType::End
            } else {
                LineType::Title(Kind::Warning)
            }
        } else if c1.unicode_len() == 0 && is_spaces(r1) && same_text(c2, CSI_BOLD_BLUE)
            && same_text(r2, "--> ") {
            LineType::Location
        } else {
            LineType::Normal
        }
    }
}

impl<'a> vstd::std_specs::convert::FromSpecImpl<&'a TLine> for LineType {
    open spec fn obeys_from_spec() -> bool {
        true
    }

    open spec fn from_spec(content: &'a TLine) -> LineType {
        line_type_of(*content)
    }
}

} // verus!
