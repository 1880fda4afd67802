//! Character-level scanning helpers shared by the status-report parser:
//! whitespace classification, token boundaries, decimal digit runs, line
//! splitting, and plain string comparison.

use vstd::prelude::*;
use vstd::string::StrSliceExecFns;

verus! {

/// The sequence of views of a list of borrowed strings.
pub open spec fn views_of(args: Seq<&str>) -> Seq<Seq<char>> {
    args.map_values(|s: &str| s@)
}

/// The sequence of views of a list of owned strings.
pub open spec fn string_views(l: Seq<String>) -> Seq<Seq<char>> {
    l.map_values(|p: String| p@)
}

/// The Unicode whitespace property, as documented for `char::is_whitespace`:
/// the characters with `White_Space=yes`.
pub open spec fn is_ws_char(c: char) -> bool {
    c == '\u{9}' || c == '\u{a}' || c == '\u{b}' || c == '\u{c}' || c == '\u{d}' || c == ' '
        || c == '\u{85}' || c == '\u{a0}' || c == '\u{1680}' || c == '\u{2000}'
        || c == '\u{2001}' || c == '\u{2002}' || c == '\u{2003}' || c == '\u{2004}'
        || c == '\u{2005}' || c == '\u{2006}' || c == '\u{2007}' || c == '\u{2008}'
        || c == '\u{2009}' || c == '\u{200a}' || c == '\u{2028}' || c == '\u{2029}'
        || c == '\u{202f}' || c == '\u{205f}' || c == '\u{3000}'
}

/// Executable whitespace test.
pub fn is_ws(c: char) -> (r: bool)
    ensures
        r == is_ws_char(c),
{
    c == '\u{9}' || c == '\u{a}' || c == '\u{b}' || c == '\u{c}' || c == '\u{d}' || c == ' '
        || c == '\u{85}' || c == '\u{a0}' || c == '\u{1680}' || c == '\u{2000}'
        || c == '\u{2001}' || c == '\u{2002}' || c == '\u{2003}' || c == '\u{2004}'
        || c == '\u{2005}' || c == '\u{2006}' || c == '\u{2007}' || c == '\u{2008}'
        || c == '\u{2009}' || c == '\u{200a}' || c == '\u{2028}' || c == '\u{2029}'
        || c == '\u{202f}' || c == '\u{205f}' || c == '\u{3000}'
}

/// The position just past the whitespace-delimited token starting at `i`:
/// the first position at or after `i` holding whitespace, or the end.
pub open spec fn tok_end(s: Seq<char>, i: int) -> int
    decreases s.len() - i,
{
    if i < 0 || i >= s.len() {
        s.len() as int
    } else if is_ws_char(s[i]) {
        i
    } else {
        tok_end(s, i + 1)
    }
}

/// The position where scanning resumes after the token starting at `i`: one
/// past the whitespace terminator when there is one, else the end.
pub open spec fn after_tok(s: Seq<char>, i: int) -> int {
    if tok_end(s, i) < s.len() {
        tok_end(s, i) + 1
    } else {
        s.len() as int
    }
}

/// Find the end of the token starting at `i`.
pub fn scan_token(s: &str, n: usize, i: usize) -> (j: usize)
    requires
        n == s@.len(),
        i <= n,
    ensures
        j == tok_end(s@, i as int),
        i <= j <= n,
{
    let mut j = i;
    while j < n && !is_ws(s.get_char(j))
        invariant
            i <= j <= n,
            n == s@.len(),
            tok_end(s@, i as int) == tok_end(s@, j as int),
        decreases n - j,
    {
        proof {
            assert(tok_end(s@, j as int) == tok_end(s@, j as int + 1));
        }
        j = j + 1;
    }
    proof {
        assert(tok_end(s@, j as int) == j as int);
    }
    j
}

/// Decimal digit classification and value.
pub open spec fn is_digit_char(c: char) -> bool {
    48 <= c as u32 <= 57
}

pub open spec fn digit_val(c: char) -> int {
    c as u32 - 48
}

pub open spec fn all_digits(s: Seq<char>) -> bool {
    forall|i: int| 0 <= i < s.len() ==> is_digit_char(s[i])
}

/// The number denoted by a digit run, most significant digit first.
pub open spec fn digits_val(s: Seq<char>) -> int
    decreases s.len(),
{
    if s.len() == 0 {
        0
    } else {
        digits_val(s.drop_last()) * 10 + digit_val(s.last())
    }
}

pub proof fn lemma_digits_val_nonneg(s: Seq<char>)
    requires
        all_digits(s),
    ensures
        digits_val(s) >= 0,
    decreases s.len(),
{
    if s.len() > 0 {
        assert(all_digits(s.drop_last()));
        lemma_digits_val_nonneg(s.drop_last());
    }
}

/// Read `s[i..j]` as an unsigned decimal number. `None` when the range is
/// empty, holds a non-digit, or denotes a value above `u32::MAX`.
pub fn parse_uint(s: &str, n: usize, i: usize, j: usize) -> (r: Option<u32>)
    requires
        n == s@.len(),
        i <= j <= n,
    ensures
        ({
            let tok = s@.subrange(i as int, j as int);
            match r {
                Some(v) => tok.len() > 0 && all_digits(tok) && digits_val(tok) == v,
                None => tok.len() == 0 || !all_digits(tok) || digits_val(tok) > u32::MAX,
            }
        }),
{
    if i == j {
        return None;
    }
    let mut acc: u64 = 0;
    let mut over = false;
    let mut k = i;
    while k < j
        invariant
            i <= k <= j <= n,
            n == s@.len(),
            all_digits(s@.subrange(i as int, k as int)),
            !over ==> acc == digits_val(s@.subrange(i as int, k as int)) && acc <= u32::MAX as u64,
            over ==> digits_val(s@.subrange(i as int, k as int)) > u32::MAX,
        decreases j - k,
    {
        let c = s.get_char(k);
        let cu = c as u32;
        if cu < 48 || cu > 57 {
            proof {
                assert(s@.subrange(i as int, j as int)[k - i] == s@[k as int]);
                assert(!all_digits(s@.subrange(i as int, j as int)));
            }
            return None;
        }
        let ghost pre = s@.subrange(i as int, k as int);
        let ghost ext = s@.subrange(i as int, k as int + 1);
        proof {
            assert(ext.drop_last() =~= pre);
            assert(ext.last() == s@[k as int]);
            assert(all_digits(ext));
            assert(digits_val(ext) == digits_val(pre) * 10 + digit_val(s@[k as int]));
        }
        let d = (cu - 48) as u64;
        if over {
            proof {
                lemma_digits_val_nonneg(pre);
            }
        } else {
            let next = acc * 10 + d;
            if next > u32::MAX as u64 {
                over = true;
            } else {
                acc = next;
            }
        }
        k = k + 1;
    }
    proof {
        assert(s@.subrange(i as int, k as int) =~= s@.subrange(i as int, j as int));
    }
    if over {
        None
    } else {
        Some(acc as u32)
    }
}

/// Character-by-character string comparison.
pub fn str_eq(a: &str, b: &str) -> (r: bool)
    ensures
        r == (a@ == b@),
{
    let na = a.unicode_len();
    let nb = b.unicode_len();
    if na != nb {
        return false;
    }
    let mut i: usize = 0;
    while i < na
        invariant
            i <= na,
            na == a@.len(),
            na == b@.len(),
            forall|j: int| 0 <= j < i ==> a@[j] == b@[j],
        decreases na - i,
    {
        if a.get_char(i) != b.get_char(i) {
            return false;
        }
        i = i + 1;
    }
    proof {
        assert(a@ =~= b@);
    }
    true
}

/// The position of the line break ending the line that starts at `i`: the
/// first newline at or after `i`, or the end of the text.
pub open spec fn line_break(s: Seq<char>, i: int) -> int
    decreases s.len() - i,
{
    if i < 0 || i >= s.len() {
        s.len() as int
    } else if s[i] == '\n' {
        i
    } else {
        line_break(s, i + 1)
    }
}

pub proof fn lemma_line_break_bounds(s: Seq<char>, i: int)
    requires
        0 <= i <= s.len(),
    ensures
        i <= line_break(s, i) <= s.len(),
    decreases s.len() - i,
{
    if i < s.len() && s[i] != '\n' {
        lemma_line_break_bounds(s, i + 1);
    }
}

/// The lines of the text from position `i` on, split as `str::lines` splits:
/// at each newline, with a carriage return directly before a newline not part
/// of the line, and with no empty line after a final newline.
pub open spec fn spec_lines_from(s: Seq<char>, i: int) -> Seq<Seq<char>>
    decreases s.len() - i,
    via spec_lines_from_decreases
{
    if i < 0 || i >= s.len() {
        Seq::empty()
    } else {
        let j = line_break(s, i);
        if j >= s.len() {
            seq![s.subrange(i, s.len() as int)]
        } else if j > i && s[j - 1] == '\r' {
            seq![s.subrange(i, j - 1)] + spec_lines_from(s, j + 1)
        } else {
            seq![s.subrange(i, j)] + spec_lines_from(s, j + 1)
        }
    }
}

#[via_fn]
proof fn spec_lines_from_decreases(s: Seq<char>, i: int) {
    if 0 <= i <= s.len() {
        lemma_line_break_bounds(s, i);
    }
}

/// The lines of a whole text.
pub open spec fn spec_lines(s: Seq<char>) -> Seq<Seq<char>> {
    spec_lines_from(s, 0)
}

/// Find the line break ending the line that starts at `i`.
pub fn scan_line_break(s: &str, n: usize, i: usize) -> (j: usize)
    requires
        n == s@.len(),
        i <= n,
    ensures
        j == line_break(s@, i as int),
        i <= j <= n,
{
    let mut j = i;
    while j < n && s.get_char(j) != '\n'
        invariant
            i <= j <= n,
            n == s@.len(),
            line_break(s@, i as int) == line_break(s@, j as int),
        decreases n - j,
    {
        proof {
            assert(line_break(s@, j as int) == line_break(s@, j as int + 1));
        }
        j = j + 1;
    }
    proof {
        assert(line_break(s@, j as int) == j as int);
    }
    j
}

} // verus!
