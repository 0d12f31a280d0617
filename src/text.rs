//! Small text utilities: splitting on a separator, line splitting, and
//! decimal `u32` parsing, each stated over `Seq<char>`.

use vstd::prelude::*;

verus! {

/// The views of a sequence of strings.
pub open spec fn views(v: Seq<String>) -> Seq<Seq<char>> {
    v.map_values(|s: String| s@)
}

/// `s` split on every occurrence of `sep`; always at least one piece.
pub open spec fn split_on(s: Seq<char>, sep: char) -> Seq<Seq<char>>
    decreases s.len(),
{
    if s.len() == 0 {
        seq![Seq::<char>::empty()]
    } else {
        let rest = split_on(s.drop_last(), sep);
        if s.last() == sep {
            rest.push(Seq::<char>::empty())
        } else {
            rest.update(rest.len() - 1, rest.last().push(s.last()))
        }
    }
}

pub proof fn lemma_split_on_nonempty(s: Seq<char>, sep: char)
    ensures
        split_on(s, sep).len() >= 1,
    decreases s.len(),
{
    if s.len() > 0 {
        lemma_split_on_nonempty(s.drop_last(), sep);
    }
}

/// `s` has no occurrence of `sep`.
pub open spec fn free_of(s: Seq<char>, sep: char) -> bool {
    forall|i: int| 0 <= i < s.len() ==> s[i] != sep
}

/// Text without the separator is one piece.
pub proof fn lemma_split_on_single(s: Seq<char>, sep: char)
    requires
        free_of(s, sep),
    ensures
        split_on(s, sep) == seq![s],
    decreases s.len(),
{
    if s.len() > 0 {
        lemma_split_on_single(s.drop_last(), sep);
        assert(s.drop_last().push(s.last()) =~= s);
        assert(seq![s.drop_last()].update(0, s.drop_last().push(s.last())) =~= seq![s]);
    } else {
        assert(s =~= Seq::<char>::empty());
    }
}

/// Appending a separator and then text without it adds one piece.
pub proof fn lemma_split_on_extend(p: Seq<char>, sep: char, s: Seq<char>)
    requires
        free_of(s, sep),
    ensures
        split_on(p + seq![sep] + s, sep) == split_on(p, sep).push(s),
    decreases s.len(),
{
    let whole = p + seq![sep] + s;
    lemma_split_on_nonempty(p, sep);
    if s.len() == 0 {
        assert(whole.drop_last() =~= p);
        assert(whole.last() == sep);
        assert(s =~= Seq::<char>::empty());
    } else {
        lemma_split_on_extend(p, sep, s.drop_last());
        assert(whole.drop_last() =~= p + seq![sep] + s.drop_last());
        assert(whole.last() == s.last());
        assert(s.drop_last().push(s.last()) =~= s);
        let rest = split_on(p, sep).push(s.drop_last());
        assert(rest.update(rest.len() - 1, s.drop_last().push(s.last())) =~= split_on(p, sep).push(s));
    }
}

/// A line without the carriage return that ended it.
pub open spec fn strip_cr(l: Seq<char>) -> Seq<char> {
    if l.len() > 0 && l.last() == '\r' {
        l.drop_last()
    } else {
        l
    }
}

/// The lines of `s`: split on `'\n'`, a `'\r'` before a `'\n'` dropped, and
/// no empty line after a final `'\n'`.
pub open spec fn lines_of(s: Seq<char>) -> Seq<Seq<char>> {
    let parts = split_on(s, '\n');
    let body = parts.drop_last().map_values(|l: Seq<char>| strip_cr(l));
    if parts.last().len() == 0 {
        body
    } else {
        body.push(parts.last())
    }
}

/// Splits `s` on every occurrence of `sep`.
pub fn split(s: &str, sep: char) -> (r: Vec<String>)
    ensures
        views(r@) == split_on(s@, sep),
{
    let n = s.unicode_len();
    let mut pieces: Vec<String> = Vec::new();
    let mut start: usize = 0;
    let mut i: usize = 0;
    proof {
        assert(s@.subrange(0, 0) =~= Seq::<char>::empty());
        assert(views(pieces@).push(s@.subrange(0, 0)) =~= seq![Seq::<char>::empty()]);
    }
    while i < n
        invariant
            n == s@.len(),
            start <= i <= n,
            split_on(s@.subrange(0, i as int), sep) == views(pieces@).push(
                s@.subrange(start as int, i as int),
            ),
        decreases n - i,
    {
        let c = s.get_char(i);
        let ghost prev = s@.subrange(0, i as int);
        let ghost next = s@.subrange(0, i + 1);
        assert(next.drop_last() =~= prev);
        assert(next.last() == c);
        if c == sep {
            let piece = s.substring_char(start, i);
            let owned = String::from_str(piece);
            pieces.push(owned);
            start = i + 1;
            proof {
                assert(views(pieces@) =~= views(pieces@.drop_last()).push(owned@));
                assert(s@.subrange(start as int, i + 1) =~= Seq::<char>::empty());
            }
        } else {
            proof {
                assert(s@.subrange(start as int, i + 1) =~= s@.subrange(
                    start as int,
                    i as int,
                ).push(c));
                assert(views(pieces@).push(s@.subrange(start as int, i as int)).update(
                    views(pieces@).len() as int,
                    s@.subrange(start as int, i + 1),
                ) =~= views(pieces@).push(s@.subrange(start as int, i + 1)));
            }
        }
        i = i + 1;
    }
    let last = s.substring_char(start, n);
    let owned = String::from_str(last);
    pieces.push(owned);
    proof {
        assert(s@.subrange(0, n as int) =~= s@);
        assert(views(pieces@) =~= views(pieces@.drop_last()).push(owned@));
    }
    pieces
}

/// Splits `s` into lines as [`lines_of`] describes.
pub fn lines(s: &str) -> (r: Vec<String>)
    ensures
        views(r@) == lines_of(s@),
{
    let parts = split(s, '\n');
    proof {
        lemma_split_on_nonempty(s@, '\n');
    }
    let ghost parts_v = views(parts@);
    let count = parts.len() - 1;
    let mut out: Vec<String> = Vec::new();
    let mut i: usize = 0;
    while i < count
        invariant
            count == parts@.len() - 1,
            parts_v == views(parts@),
            parts_v == split_on(s@, '\n'),
            i <= count,
            views(out@) == parts_v.take(i as int).map_values(|l: Seq<char>| strip_cr(l)),
        decreases count - i,
    {
        let line = parts[i].as_str();
        let len = line.unicode_len();
        let stripped: String = if len > 0 && line.get_char(len - 1) == '\r' {
            String::from_str(line.substring_char(0, len - 1))
        } else {
            String::from_str(line)
        };
        proof {
            assert(line@ == parts_v[i as int]);
            if len > 0 && line@.last() == '\r' {
                assert(line@.subrange(0, len - 1) =~= line@.drop_last());
            }
            assert(stripped@ == strip_cr(parts_v[i as int]));
        }
        let ghost before = views(out@);
        out.push(stripped);
        proof {
            assert(views(out@) =~= before.push(stripped@));
            assert(parts_v.take(i + 1) =~= parts_v.take(i as int).push(parts_v[i as int]));
            assert(parts_v.take(i + 1).map_values(|l: Seq<char>| strip_cr(l)) =~= parts_v.take(
                i as int,
            ).map_values(|l: Seq<char>| strip_cr(l)).push(strip_cr(parts_v[i as int])));
        }
        i = i + 1;
    }
    proof {
        assert(parts_v.take(count as int) =~= parts_v.drop_last());
    }
    let last = parts[count].as_str();
    if last.unicode_len() > 0 {
        let owned = String::from_str(last);
        out.push(owned);
        proof {
            assert(views(out@) =~= views(out@.drop_last()).push(owned@));
        }
    }
    out
}

/// The first line of `s`, if it has one.
pub open spec fn first_line(s: Seq<char>) -> Option<Seq<char>> {
    if lines_of(s).len() > 0 {
        Some(lines_of(s)[0])
    } else {
        None
    }
}

/// Why a decimal number could not be read.
#[derive(Debug, Clone, Copy, PartialEq, Eq, Structural)]
pub enum IntError {
    /// The text was empty.
    Empty,
    /// A character was not a decimal digit.
    InvalidDigit,
    /// The number does not fit in a `u32`.
    PosOverflow,
}

pub open spec fn is_digit(c: char) -> bool {
    '0' <= c && c <= '9'
}

pub open spec fn digit_value(c: char) -> nat {
    (c as u32 - '0' as u32) as nat
}

/// Reads the digits of `s` from index `i` on, left to right, starting from
/// `acc`: the first non-digit or the first overflow ends the scan.
pub open spec fn scan_digits(s: Seq<char>, i: int, acc: nat) -> Result<nat, IntError>
    decreases s.len() - i,
{
    if i >= s.len() {
        Ok(acc)
    } else if !is_digit(s[i]) {
        Err(IntError::InvalidDigit)
    } else if acc * 10 + digit_value(s[i]) > u32::MAX {
        Err(IntError::PosOverflow)
    } else {
        scan_digits(s, i + 1, acc * 10 + digit_value(s[i]))
    }
}

/// Decimal reading of a `u32`: an optional leading `'+'`, then one or more
/// digits.
pub open spec fn parse_u32_spec(s: Seq<char>) -> Result<u32, IntError> {
    if s.len() == 0 {
        Err(IntError::Empty)
    } else if s.len() == 1 && (s[0] == '+' || s[0] == '-') {
        Err(IntError::InvalidDigit)
    } else {
        let digits = if s[0] == '+' {
            s.skip(1)
        } else {
            s
        };
        match scan_digits(digits, 0, 0) {
            Ok(v) => Ok(v as u32),
            Err(e) => Err(e),
        }
    }
}

proof fn lemma_scan_bounded(s: Seq<char>, i: int, acc: nat)
    requires
        acc <= u32::MAX,
    ensures
        scan_digits(s, i, acc) is Ok ==> scan_digits(s, i, acc)->Ok_0 <= u32::MAX,
    decreases s.len() - i,
{
    if i < s.len() && is_digit(s[i]) && acc * 10 + digit_value(s[i]) <= u32::MAX {
        lemma_scan_bounded(s, i + 1, acc * 10 + digit_value(s[i]));
    }
}

/// Reads a decimal `u32` as `str::parse::<u32>` does.
pub fn parse_u32(s: &str) -> (r: Result<u32, IntError>)
    ensures
        r == parse_u32_spec(s@),
{
    let n = s.unicode_len();
    if n == 0 {
        return Err(IntError::Empty);
    }
    let first = s.get_char(0);
    if n == 1 && (first == '+' || first == '-') {
        return Err(IntError::InvalidDigit);
    }
    let start: usize = if first == '+' {
        1
    } else {
        0
    };
    let ghost digits = if s@[0] == '+' {
        s@.skip(1)
    } else {
        s@
    };
    assert(digits =~= s@.subrange(start as int, n as int));
    let mut acc: u32 = 0;
    let mut i: usize = start;
    proof {
        lemma_scan_bounded(digits, 0, 0);
    }
    while i < n
        invariant
            n == s@.len(),
            start <= i <= n,
            digits == s@.subrange(start as int, n as int),
            n > 0,
            !(n == 1 && (s@[0] == '+' || s@[0] == '-')),
            digits == (if s@[0] == '+' {
                s@.skip(1)
            } else {
                s@
            }),
            scan_digits(digits, 0, 0) == scan_digits(digits, i - start, acc as nat),
        decreases n - i,
    {
        let c = s.get_char(i);
        let ghost k: int = i - start;
        assert(digits[k] == c);
        assert(k < digits.len());
        if !('0' <= c && c <= '9') {
            assert(scan_digits(digits, k, acc as nat) == Err::<nat, IntError>(
                IntError::InvalidDigit,
            ));
            return Err(IntError::InvalidDigit);
        }
        let d = (c as u32) - ('0' as u32);
        assert(digit_value(c) == d);
        if acc > 429496729 || (acc == 429496729 && d > 5) {
            assert(acc as nat * 10 + d as nat > u32::MAX) by (nonlinear_arith)
                requires
                    acc > 429496729 || (acc == 429496729 && d > 5),
            ;
            assert(scan_digits(digits, k, acc as nat) == Err::<nat, IntError>(
                IntError::PosOverflow,
            ));
            return Err(IntError::PosOverflow);
        }
        assert(acc as nat * 10 + d as nat <= u32::MAX) by (nonlinear_arith)
            requires
                acc <= 429496729,
                acc < 429496729 || d <= 5,
                d <= 9,
        ;
        acc = acc * 10 + d;
        i = i + 1;
    }
    proof {
        lemma_scan_bounded(digits, 0, 0);
    }
    Ok(acc)
}

} // verus!
