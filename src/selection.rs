//! The selection protocol shared by every menu: a picked line starts with
//! `"<index>: "`, and the index is read the way `str::parse::<usize>` reads it.
use vstd::prelude::*;
use vstd::string::*;
use crate::text::{concat, decimal, digit_char};

verus! {

/// Why the index in front of a selected line could not be read.
#[derive(Debug, Clone, Copy, PartialEq, Eq, Structural)]
pub enum IndexError {
    /// Nothing stands before the colon (the picker was cancelled).
    Empty,
    /// Something other than a decimal digit stands before the colon.
    InvalidDigit,
    /// The number does not fit in `usize`.
    PosOverflow,
}

/// The characters of a selected line before its first colon.
pub open spec fn before_colon(s: Seq<char>) -> Seq<char>
    decreases s.len(),
{
    if s.len() == 0 || s[0] == ':' {
        Seq::empty()
    } else {
        seq![s[0]] + before_colon(s.drop_first())
    }
}

pub open spec fn is_digit(c: char) -> bool {
    '0' <= c && c <= '9'
}

pub open spec fn digit_value(c: char) -> nat {
    (c as u32 - '0' as u32) as nat
}

/// Reads decimal digits left to right onto `acc`; the first character that is
/// no digit, or the first digit that takes the value past `usize::MAX`, fails.
pub open spec fn scan_digits(d: Seq<char>, acc: nat) -> Result<usize, IndexError>
    decreases d.len(),
{
    if d.len() == 0 {
        Ok(acc as usize)
    } else if !is_digit(d[0]) {
        Err(IndexError::InvalidDigit)
    } else if acc * 10 + digit_value(d[0]) > usize::MAX {
        Err(IndexError::PosOverflow)
    } else {
        scan_digits(d.drop_first(), acc * 10 + digit_value(d[0]))
    }
}

/// An unsigned decimal number, optionally led by `+`.
pub open spec fn parse_index(s: Seq<char>) -> Result<usize, IndexError> {
    if s.len() == 0 {
        Err(IndexError::Empty)
    } else if s.len() == 1 && (s[0] == '+' || s[0] == '-') {
        Err(IndexError::InvalidDigit)
    } else if s[0] == '+' {
        scan_digits(s.drop_first(), 0)
    } else {
        scan_digits(s, 0)
    }
}

/// The index that a selected line names.
pub open spec fn selection_index_of(selection: Seq<char>) -> Result<usize, IndexError> {
    parse_index(before_colon(selection))
}

proof fn lemma_before_colon_prefix(s: Seq<char>, k: int)
    requires
        0 <= k <= s.len(),
        forall|j: int| 0 <= j < k ==> s[j] != ':',
        k == s.len() || s[k] == ':',
    ensures
        before_colon(s) == s.take(k),
    decreases s.len(),
{
    if s.len() == 0 || s[0] == ':' {
        assert(k == 0);
        assert(s.take(k) =~= Seq::<char>::empty());
    } else {
        let t = s.drop_first();
        assert forall|j: int| 0 <= j < k - 1 implies t[j] != ':' by {
            assert(t[j] == s[j + 1]);
        }
        lemma_before_colon_prefix(t, k - 1);
        assert(seq![s[0]] + t.take(k - 1) =~= s.take(k));
    }
}

/// Reads the characters `from..to` of `s` as decimal digits.
fn scan_range(s: &str, from: usize, to: usize) -> (r: Result<usize, IndexError>)
    requires
        from <= to <= s@.len(),
    ensures
        r == scan_digits(s@.subrange(from as int, to as int), 0),
{
    let mut acc: usize = 0;
    let mut i: usize = from;
    while i < to
        invariant
            from <= i <= to,
            to <= s@.len(),
            scan_digits(s@.subrange(from as int, to as int), 0) == scan_digits(
                s@.subrange(i as int, to as int),
                acc as nat,
            ),
        decreases to - i,
    {
        let c = s.get_char(i);
        let ghost rest = s@.subrange(i as int, to as int);
        assert(rest[0] == c);
        assert(rest.drop_first() =~= s@.subrange(i + 1, to as int));
        if !('0' <= c && c <= '9') {
            return Err(IndexError::InvalidDigit);
        }
        let d: usize = (c as u32 - '0' as u32) as usize;
        if acc > (usize::MAX - d) / 10 {
            assert(acc * 10 + d > usize::MAX) by (nonlinear_arith)
                requires
                    acc > (usize::MAX - d) / 10,
                    d <= 9,
            ;
            return Err(IndexError::PosOverflow);
        }
        assert(acc * 10 + d <= usize::MAX) by (nonlinear_arith)
            requires
                acc <= (usize::MAX - d) / 10,
                d <= 9,
        ;
        acc = acc * 10 + d;
        i = i + 1;
    }
    Ok(acc)
}

/// Reads the index in front of a selected line: the characters before the
/// first colon, as an unsigned decimal number.
pub fn selection_index(selection: &str) -> (r: Result<usize, IndexError>)
    ensures
        r == selection_index_of(selection@),
{
    let n = selection.unicode_len();
    let mut k: usize = 0;
    while k < n
        invariant
            n == selection@.len(),
            k <= n,
            forall|j: int| 0 <= j < k ==> selection@[j] != ':',
        ensures
            k <= n,
            forall|j: int| 0 <= j < k ==> selection@[j] != ':',
            k == n || selection@[k as int] == ':',
        decreases n - k,
    {
        if selection.get_char(k) == ':' {
            break;
        }
        k = k + 1;
    }
    proof {
        lemma_before_colon_prefix(selection@, k as int);
    }
    let ghost prefix = selection@.take(k as int);
    if k == 0 {
        return Err(IndexError::Empty);
    }
    let first = selection.get_char(0);
    if k == 1 && (first == '+' || first == '-') {
        return Err(IndexError::InvalidDigit);
    }
    if first == '+' {
        assert(prefix.drop_first() =~= selection@.subrange(1, k as int));
        scan_range(selection, 1, k)
    } else {
        assert(prefix =~= selection@.subrange(0, k as int));
        scan_range(selection, 0, k)
    }
}

impl IndexError {
    /// The words that describe the error, as std's `ParseIntError` puts them.
    pub fn message(&self) -> (r: &'static str)
        ensures
            r@ == self.message_text(),
    {
        match self {
            IndexError::Empty => "cannot parse integer from empty string",
            IndexError::InvalidDigit => "invalid digit found in string",
            IndexError::PosOverflow => "number too large to fit in target type",
        }
    }

    pub open spec fn message_text(&self) -> Seq<char> {
        match self {
            IndexError::Empty => "cannot parse integer from empty string"@,
            IndexError::InvalidDigit => "invalid digit found in string"@,
            IndexError::PosOverflow => "number too large to fit in target type"@,
        }
    }
}

proof fn lemma_scan_append(s: Seq<char>, t: Seq<char>, acc: nat)
    requires
        acc <= usize::MAX,
    ensures
        scan_digits(s + t, acc) == match scan_digits(s, acc) {
            Ok(v) => scan_digits(t, v as nat),
            Err(e) => Err(e),
        },
    decreases s.len(),
{
    if s.len() == 0 {
        assert(s + t =~= t);
    } else {
        assert((s + t)[0] == s[0]);
        assert((s + t).drop_first() =~= s.drop_first() + t);
        if is_digit(s[0]) && acc * 10 + digit_value(s[0]) <= usize::MAX {
            lemma_scan_append(s.drop_first(), t, acc * 10 + digit_value(s[0]));
        }
    }
}

proof fn lemma_digit_char(d: nat)
    requires
        d < 10,
    ensures
        is_digit(digit_char(d)),
        digit_value(digit_char(d)) == d,
        digit_char(d) != ':',
        digit_char(d) != '+',
        digit_char(d) != '-',
{
}

/// The digits of a number that fits in `usize` read back as that number.
proof fn lemma_scan_decimal(n: nat)
    requires
        n <= usize::MAX,
    ensures
        scan_digits(decimal(n), 0) == Ok::<usize, IndexError>(n as usize),
        forall|j: int| 0 <= j < decimal(n).len() ==> #[trigger] decimal(n)[j] != ':',
        decimal(n).len() > 0,
        is_digit(decimal(n)[0]),
    decreases n,
{
    if n < 10 {
        lemma_digit_char(n);
        let c = digit_char(n);
        assert(decimal(n) == seq![c]);
        assert(seq![c].drop_first() =~= Seq::<char>::empty());
        assert(scan_digits(seq![c].drop_first(), n) == Ok::<usize, IndexError>(n as usize));
        assert(scan_digits(seq![c], 0) == Ok::<usize, IndexError>(n as usize));
    } else {
        let q = n / 10;
        let d = n % 10;
        lemma_digit_char(d);
        lemma_scan_decimal(q);
        assert(decimal(n) =~= decimal(q) + seq![digit_char(d)]);
        lemma_scan_append(decimal(q), seq![digit_char(d)], 0);
        assert(seq![digit_char(d)].drop_first() =~= Seq::<char>::empty());
        assert(q * 10 + d == n);
        assert(scan_digits(Seq::<char>::empty(), n) == Ok::<usize, IndexError>(n as usize));
        assert(scan_digits(seq![digit_char(d)], q) == Ok::<usize, IndexError>(n as usize));
        assert forall|j: int| 0 <= j < decimal(n).len() implies #[trigger] decimal(n)[j] != ':' by {
            if j < decimal(q).len() {
                assert(decimal(n)[j] == decimal(q)[j]);
            }
        }
        assert(decimal(n)[0] == decimal(q)[0]);
    }
}

/// A line that starts with a number and a colon names that number.
pub proof fn lemma_numbered_line_index(n: usize, rest: Seq<char>)
    ensures
        selection_index_of(decimal(n as nat) + ": "@ + rest) == Ok::<usize, IndexError>(n),
{
    reveal_strlit(": ");
    let digits = decimal(n as nat);
    let line = digits + ": "@ + rest;
    lemma_scan_decimal(n as nat);
    assert forall|j: int| 0 <= j < digits.len() implies line[j] != ':' by {
        assert(line[j] == digits[j]);
    }
    assert(line[digits.len() as int] == ':');
    lemma_before_colon_prefix(line, digits.len() as int);
    assert(line.take(digits.len() as int) =~= digits);
    lemma_digit_char(0);
    assert(digits[0] != '+' && digits[0] != '-');
}

/// `text` between double quotes.
pub open spec fn quoted(text: Seq<char>) -> Seq<char> {
    seq!['"'] + text + seq!['"']
}

/// Puts `text` between double quotes.
pub fn quote(text: &str) -> (r: String)
    ensures
        r@ == quoted(text@),
{
    let q = "\"";
    proof { reveal_strlit("\""); }
    let mut s = concat(q, text);
    s.append(q);
    s
}

} // verus!
