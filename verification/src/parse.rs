//! Parsing of the specification's plain-text table lines.
//!
//! A data line names an inclusive code-point range and an optional
//! replacement: hexadecimal digits, an optional `-` and second number, and
//! optionally `;` followed by up to four space-separated numbers (none
//! meaning the range maps to nothing) and a closing `;`. Leading and
//! trailing spaces are allowed. The executable
//! parser is proved to return exactly what the specification-level parser
//! [`parse_line_spec`] reads from the line.
use vstd::prelude::*;
use crate::unicode::chars_of;

verus! {

/// An uppercase hexadecimal digit.
pub open spec fn is_hex_digit(c: char) -> bool {
    let cp = c as u32;
    (0x30 <= cp && cp <= 0x39) || (0x41 <= cp && cp <= 0x46)
}

/// The value of an uppercase hexadecimal digit.
pub open spec fn hex_digit_val(c: char) -> int {
    let cp = c as u32;
    if cp <= 0x39 {
        cp - 0x30
    } else {
        cp - 0x41 + 10
    }
}

/// How many hexadecimal digits stand at position `i`.
pub open spec fn hex_span(s: Seq<char>, i: int) -> int
    decreases s.len() - i,
{
    if 0 <= i < s.len() && is_hex_digit(s[i]) {
        1 + hex_span(s, i + 1)
    } else {
        0
    }
}

/// The value of the digits `s[i..j)`, read most significant first.
pub open spec fn hex_value(s: Seq<char>, i: int, j: int) -> int
    decreases j - i,
{
    if i >= j {
        0
    } else {
        hex_value(s, i, j - 1) * 16 + hex_digit_val(s[j - 1])
    }
}

/// Whether everything from position `i` on is spaces.
pub open spec fn all_spaces_from(s: Seq<char>, i: int) -> bool {
    forall|j: int| i <= j < s.len() ==> s[j] == ' '
}

/// The position of the first non-space character at or after `i`.
pub open spec fn spaces_end(s: Seq<char>, i: int) -> int
    decreases s.len() - i,
{
    if 0 <= i < s.len() && s[i] == ' ' {
        spaces_end(s, i + 1)
    } else {
        i
    }
}

/// Reads the replacement numbers after the opening `;`: up to `k` more
/// ` HEX` groups, then the closing `;`. Returns the numbers and the
/// position after the closing `;`.
pub open spec fn parse_repl(s: Seq<char>, i: int, k: nat) -> Option<(Seq<int>, int)>
    decreases k,
{
    if 0 <= i < s.len() && s[i] == ';' {
        Some((Seq::empty(), i + 1))
    } else if 0 <= i && i + 1 < s.len() && s[i] == ' ' && s[i + 1] == ';' {
        Some((Seq::empty(), i + 2))
    } else if k > 0 && 0 <= i < s.len() && s[i] == ' ' && 1 <= hex_span(s, i + 1) <= 6 {
        let n = hex_span(s, i + 1);
        match parse_repl(s, i + 1 + n, (k - 1) as nat) {
            Some((rest, j)) => Some((seq![hex_value(s, i + 1, i + 1 + n)] + rest, j)),
            None => None,
        }
    } else {
        None
    }
}

/// Reads what may follow the range: only trailing spaces, or `;`, the
/// replacement numbers, `;`, and trailing spaces.
pub open spec fn parse_tail(s: Seq<char>, i: int, start: int, end: int) -> Option<
    (int, int, Seq<int>),
> {
    if all_spaces_from(s, i) {
        Some((start, end, Seq::empty()))
    } else if 0 <= i < s.len() && s[i] == ';' {
        match parse_repl(s, i + 1, 4) {
            Some((items, j)) => if all_spaces_from(s, j) {
                Some((start, end, items))
            } else {
                None
            },
            None => None,
        }
    } else {
        None
    }
}

/// What a table line means: the range start, the inclusive range end (the
/// start again when no `-` part is present), and the replacement numbers
/// (empty when no replacement part is present). `None` when the line does
/// not have the format.
pub open spec fn parse_line_spec(s: Seq<char>) -> Option<(int, int, Seq<int>)> {
    let b = spaces_end(s, 0);
    let n0 = hex_span(s, b);
    if n0 < 1 || n0 > 6 {
        None
    } else {
        let start = hex_value(s, b, b + n0);
        let i = b + n0;
        if 0 <= i < s.len() && s[i] == '-' {
            let n1 = hex_span(s, i + 1);
            if n1 < 1 || n1 > 6 {
                None
            } else {
                parse_tail(s, i + 1 + n1, start, hex_value(s, i + 1, i + 1 + n1))
            }
        } else {
            parse_tail(s, i, start, start)
        }
    }
}

/// One parsed table line: an inclusive code-point range and the replacement
/// the specification assigns it (empty meaning none was given).
pub struct TableLine {
    pub start: u32,
    pub end: u32,
    pub repl: Vec<u32>,
}

impl TableLine {
    /// Agreement with a specification-level parse.
    pub open spec fn matches(&self, p: (int, int, Seq<int>)) -> bool {
        &&& self.start == p.0
        &&& self.end == p.1
        &&& self.repl@.len() == p.2.len()
        &&& forall|i: int| 0 <= i < p.2.len() ==> self.repl@[i] == p.2[i]
    }
}

/// Decides whether a character is an uppercase hexadecimal digit.
fn hex_digit(c: char) -> (r: bool)
    ensures
        r == is_hex_digit(c),
{
    let cp = c as u32;
    (0x30 <= cp && cp <= 0x39) || (0x41 <= cp && cp <= 0x46)
}

/// The length of the run of hexadecimal digits at position `i`.
fn scan_hex_span(v: &Vec<char>, i: usize) -> (n: usize)
    requires
        i <= v@.len(),
    ensures
        n == hex_span(v@, i as int),
        i + n <= v@.len(),
    decreases v@.len() - i,
{
    if i < v.len() && hex_digit(v[i]) {
        let n = scan_hex_span(v, i + 1);
        n + 1
    } else {
        0
    }
}

/// The value of the digit run `v[i..j)`.
fn hex_run_value(v: &Vec<char>, i: usize, j: usize) -> (x: u32)
    requires
        i <= j <= v@.len(),
        j - i <= 6,
        hex_span(v@, i as int) >= j - i,
    ensures
        x == hex_value(v@, i as int, j as int),
        x < 0x1000000,
    decreases j - i,
{
    proof {
        lemma_hex_span_digits(v@, i as int);
        lemma_hex_value_bound(v@, i as int, j as int);
    }
    if i == j {
        0
    } else {
        let hi = hex_run_value(v, i, j - 1);
        let c = v[j - 1];
        let d: u32 = if (c as u32) <= 0x39 {
            (c as u32) - 0x30
        } else {
            (c as u32) - 0x41 + 10
        };
        hi * 16 + d
    }
}

/// Every position inside a hexadecimal span holds a hexadecimal digit.
proof fn lemma_hex_span_digits(s: Seq<char>, i: int)
    requires
        0 <= i,
    ensures
        forall|j: int| i <= j < i + hex_span(s, i) ==> is_hex_digit(#[trigger] s[j]),
        i + hex_span(s, i) <= s.len() || hex_span(s, i) == 0,
    decreases s.len() - i,
{
    if 0 <= i < s.len() && is_hex_digit(s[i]) {
        lemma_hex_span_digits(s, i + 1);
    }
}

/// A run of at most six digits has a value below 2^24.
proof fn lemma_hex_value_bound(s: Seq<char>, i: int, j: int)
    requires
        0 <= i,
        j - i <= 6,
        forall|q: int| i <= q < j ==> is_hex_digit(#[trigger] s[q]),
    ensures
        hex_value(s, i, j) < 0x1000000,
        hex_value(s, i, j) >= 0,
{
    if i < j {
        let n = (j - i) as nat;
        lemma_hex_value_bound_n(s, i, j, n);
        lemma_pow16_small();
        if n == 1 {
        } else if n == 2 {
        } else if n == 3 {
        } else if n == 4 {
        } else if n == 5 {
        } else {
            assert(n == 6);
        }
        assert(pow16(n) <= 0x1000000);
    } else {
        assert(hex_value(s, i, j) == 0);
    }
}

/// A run of `n` digits has a value below `16^n`.
proof fn lemma_hex_value_bound_n(s: Seq<char>, i: int, j: int, n: nat)
    requires
        0 <= i,
        j - i == n,
        forall|q: int| i <= q < j ==> is_hex_digit(#[trigger] s[q]),
    ensures
        0 <= hex_value(s, i, j) < pow16(n),
    decreases n,
{
    if n > 0 {
        lemma_hex_value_bound_n(s, i, j - 1, (n - 1) as nat);
        assert(is_hex_digit(s[j - 1]));
        assert(hex_digit_val(s[j - 1]) <= 15);
    }
}

/// The first seven powers of sixteen.
proof fn lemma_pow16_small()
    ensures
        pow16(0) == 1,
        pow16(1) == 16,
        pow16(2) == 0x100,
        pow16(3) == 0x1000,
        pow16(4) == 0x10000,
        pow16(5) == 0x100000,
        pow16(6) == 0x1000000,
{
    reveal_with_fuel(pow16, 8);
}

/// Sixteen to a small power.
pub open spec fn pow16(n: nat) -> int
    decreases n,
{
    if n == 0 {
        1
    } else {
        16 * pow16((n - 1) as nat)
    }
}

/// The position of the first non-space character at or after `i`.
fn skip_spaces(v: &Vec<char>, i: usize) -> (r: usize)
    requires
        i <= v@.len(),
    ensures
        r == spaces_end(v@, i as int),
        i <= r <= v@.len(),
    decreases v@.len() - i,
{
    if i < v.len() && v[i] == ' ' {
        skip_spaces(v, i + 1)
    } else {
        i
    }
}

/// Decides whether only spaces remain from position `i` on.
fn only_spaces_from(v: &Vec<char>, i: usize) -> (r: bool)
    requires
        i <= v@.len(),
    ensures
        r == all_spaces_from(v@, i as int),
{
    let mut j = i;
    while j < v.len()
        invariant
            i <= j <= v@.len(),
            forall|k: int| i <= k < j ==> v@[k] == ' ',
        decreases v@.len() - j,
    {
        if v[j] != ' ' {
            return false;
        }
        j = j + 1;
    }
    true
}

/// Reads the replacement numbers after the opening `;`.
fn read_repl(v: &Vec<char>, i: usize, k: u32) -> (r: Option<(Vec<u32>, usize)>)
    requires
        i <= v@.len(),
        k <= 4,
    ensures
        match (r, parse_repl(v@, i as int, k as nat)) {
            (Some(got), Some(want)) => {
                &&& got.1 == want.1
                &&& got.0@.len() == want.0.len()
                &&& forall|q: int| 0 <= q < want.0.len() ==> got.0@[q] == want.0[q]
                &&& got.1 <= v@.len()
            },
            (None, None) => true,
            _ => false,
        },
    decreases k,
{
    if i < v.len() && v[i] == ';' {
        Some((Vec::new(), i + 1))
    } else if i < v.len() && v[i] == ' ' && i + 1 < v.len() && v[i + 1] == ';' {
        Some((Vec::new(), i + 2))
    } else if k > 0 && i < v.len() && v[i] == ' ' {
        let n = scan_hex_span(v, i + 1);
        if n < 1 || n > 6 {
            return None;
        }
        let x = hex_run_value(v, i + 1, i + 1 + n);
        match read_repl(v, i + 1 + n, k - 1) {
            Some((rest, j)) => {
                let mut items: Vec<u32> = Vec::new();
                items.push(x);
                let mut q: usize = 0;
                while q < rest.len()
                    invariant
                        0 <= q <= rest@.len(),
                        items@.len() == q + 1,
                        items@[0] == x,
                        forall|p: int| 0 <= p < q ==> items@[p + 1] == rest@[p],
                    decreases rest@.len() - q,
                {
                    items.push(rest[q]);
                    q = q + 1;
                }
                Some((items, j))
            },
            None => None,
        }
    } else {
        None
    }
}

/// Parses one table line: `None` when the line does not have the data-line
/// format, and otherwise exactly the range and replacement that
/// [`parse_line_spec`] reads from it.
pub fn parse_table_line(s: &str) -> (r: Option<TableLine>)
    ensures
        match (r, parse_line_spec(s@)) {
            (Some(line), Some(p)) => line.matches(p),
            (None, None) => true,
            _ => false,
        },
{
    let v = chars_of(s);
    let b = skip_spaces(&v, 0);
    let n0 = scan_hex_span(&v, b);
    if n0 < 1 || n0 > 6 {
        return None;
    }
    let start = hex_run_value(&v, b, b + n0);
    let i = b + n0;
    let (end, i) = if i < v.len() && v[i] == '-' {
        let n1 = scan_hex_span(&v, i + 1);
        if n1 < 1 || n1 > 6 {
            return None;
        }
        (hex_run_value(&v, i + 1, i + 1 + n1), i + 1 + n1)
    } else {
        (start, i)
    };
    if only_spaces_from(&v, i) {
        return Some(TableLine { start, end, repl: Vec::new() });
    }
    if i < v.len() && v[i] == ';' {
        match read_repl(&v, i + 1, 4) {
            Some((items, j)) => {
                if only_spaces_from(&v, j) {
                    return Some(TableLine { start, end, repl: items });
                }
                None
            },
            None => None,
        }
    } else {
        None
    }
}

} // verus!
