//! Interface traffic: the byte totals that the kernel's per-interface counter
//! table holds, and the rates between two samples.
use crate::geoip::{is_white_space, lines_of, split_lines, str_views};
use vstd::prelude::*;

verus! {

/// Bytes per second in each direction.
#[derive(Clone, Copy, Debug, PartialEq, Eq, Structural)]
pub struct TrafficStats {
    pub up_speed: u64,
    pub down_speed: u64,
}

/// The fields that white space has closed so far, and the run of other
/// characters after the last white space.
pub open spec fn fields_state(s: Seq<char>) -> (Seq<Seq<char>>, Seq<char>)
    decreases s.len(),
{
    if s.len() == 0 {
        (Seq::empty(), Seq::empty())
    } else {
        let (done, cur) = fields_state(s.drop_last());
        if is_white_space(s.last()) {
            if cur.len() > 0 {
                (done.push(cur), Seq::empty())
            } else {
                (done, Seq::empty())
            }
        } else {
            (done, cur.push(s.last()))
        }
    }
}

/// The maximal runs of characters that are not white space, in order.
pub open spec fn fields_of(s: Seq<char>) -> Seq<Seq<char>> {
    let (done, cur) = fields_state(s);
    if cur.len() > 0 {
        done.push(cur)
    } else {
        done
    }
}

/// Relies on `str::split_whitespace`: the maximal runs of characters that are
/// not of the Unicode White_Space property, in order.
#[verifier::external_body]
fn split_fields(s: &str) -> (r: Vec<&str>)
    ensures
        str_views(r@) == fields_of(s@),
{
    s.split_whitespace().collect()
}

/// The number that a run of decimal digits writes.
pub open spec fn digits_value(s: Seq<char>) -> int
    decreases s.len(),
{
    if s.len() == 0 {
        0
    } else {
        digits_value(s.drop_last()) * 10 + (s.last() as int - '0' as int)
    }
}

pub open spec fn is_digit(c: char) -> bool {
    '0' <= c && c <= '9'
}

pub open spec fn all_digits(s: Seq<char>) -> bool {
    forall|i: int| 0 <= i < s.len() ==> is_digit(#[trigger] s[i])
}

/// The text without one leading `+`.
pub open spec fn unsigned_part(s: Seq<char>) -> Seq<char> {
    if s.len() > 0 && s[0] == '+' {
        s.drop_first()
    } else {
        s
    }
}

/// A `u64` in decimal, as `u64::from_str` reads it: an optional `+`, then at
/// least one digit, and a value that fits.
pub open spec fn u64_of(s: Seq<char>) -> Option<u64> {
    let d = unsigned_part(s);
    if d.len() > 0 && all_digits(d) && digits_value(d) <= u64::MAX {
        Some(digits_value(d) as u64)
    } else {
        None
    }
}

proof fn lemma_digits_value_nonneg(s: Seq<char>)
    requires
        all_digits(s),
    ensures
        digits_value(s) >= 0,
    decreases s.len(),
{
    if s.len() > 0 {
        assert(all_digits(s.drop_last()));
        lemma_digits_value_nonneg(s.drop_last());
        assert(is_digit(s.last()));
    }
}

/// Reads a `u64` written in decimal.
pub fn parse_u64(s: &str) -> (r: Option<u64>)
    ensures
        r == u64_of(s@),
{
    let n = s.unicode_len();
    let mut start: usize = 0;
    if n > 0 && s.get_char(0) == '+' {
        start = 1;
    }
    let ghost d = unsigned_part(s@);
    assert(d =~= s@.subrange(start as int, n as int));
    if start == n {
        return None;
    }
    let mut value: u64 = 0;
    let mut overflow = false;
    let mut i: usize = start;
    while i < n
        invariant
            n == s@.len(),
            start <= i <= n,
            d == s@.subrange(start as int, n as int),
            d == unsigned_part(s@),
            all_digits(d.subrange(0, i - start)),
            !overflow ==> value as int == digits_value(d.subrange(0, i - start)),
            overflow ==> digits_value(d.subrange(0, i - start)) > u64::MAX,
        decreases n - i,
    {
        let c = s.get_char(i);
        if c < '0' || c > '9' {
            assert(d[(i - start) as int] == c);
            assert(!is_digit(d[(i - start) as int]));
            return None;
        }
        let ghost k = (i - start) as int;
        assert(d.subrange(0, k + 1).drop_last() =~= d.subrange(0, k));
        assert(d.subrange(0, k + 1).last() == c);
        assert(all_digits(d.subrange(0, k + 1)));
        let digit = (c as u32 - '0' as u32) as u64;
        proof {
            lemma_digits_value_nonneg(d.subrange(0, k));
            if overflow {
                let prev = digits_value(d.subrange(0, k));
                assert(prev * 10 + (c as int - '0' as int) > u64::MAX) by (nonlinear_arith)
                    requires
                        prev > u64::MAX,
                        is_digit(c),
                ;
            }
        }
        if !overflow {
            match value.checked_mul(10) {
                Some(m) => match m.checked_add(digit) {
                    Some(v) => {
                        value = v;
                    },
                    None => {
                        overflow = true;
                    },
                },
                None => {
                    overflow = true;
                    assert(digits_value(d.subrange(0, k + 1)) >= value * 10) by (nonlinear_arith)
                        requires
                            digits_value(d.subrange(0, k + 1)) == value * 10 + (c as int - '0' as int),
                            is_digit(c),
                    ;
                },
            }
        }
        i = i + 1;
    }
    assert(d.subrange(0, (n - start) as int) =~= d);
    if overflow {
        None
    } else {
        Some(value)
    }
}

/// The received and transmitted byte counts of one row of the counter table:
/// its second and tenth fields, where it has ten and both read as numbers.
pub open spec fn field_counts(f: Seq<Seq<char>>) -> Option<(u64, u64)> {
    if f.len() < 10 {
        None
    } else {
        match (u64_of(f[1]), u64_of(f[9])) {
            (Some(rx), Some(tx)) => Some((rx, tx)),
            _ => None,
        }
    }
}

/// The byte counts of one line of the counter table.
pub open spec fn line_counts(l: Seq<char>) -> Option<(u64, u64)> {
    field_counts(fields_of(l))
}

/// The received and transmitted byte counts of a row split into its fields.
pub fn counts_from_fields(parts: &Vec<&str>) -> (r: Option<(u64, u64)>)
    ensures
        r == field_counts(str_views(parts@)),
{
    if parts.len() >= 10 {
        match (parse_u64(parts[1]), parse_u64(parts[9])) {
            (Some(rx), Some(tx)) => Some((rx, tx)),
            _ => None,
        }
    } else {
        None
    }
}

pub open spec fn sat_add(a: u64, b: u64) -> u64 {
    if a + b > u64::MAX {
        u64::MAX
    } else {
        (a + b) as u64
    }
}

/// The received and transmitted totals over the lines, each capped at `u64::MAX`.
pub open spec fn totals(lines: Seq<Seq<char>>) -> (u64, u64)
    decreases lines.len(),
{
    if lines.len() == 0 {
        (0, 0)
    } else {
        let (rx, tx) = totals(lines.drop_last());
        match line_counts(lines.last()) {
            Some((r, t)) => (sat_add(rx, r), sat_add(tx, t)),
            None => (rx, tx),
        }
    }
}

/// The lines after the two header lines.
pub open spec fn after_headers(lines: Seq<Seq<char>>) -> Seq<Seq<char>> {
    if lines.len() <= 2 {
        Seq::empty()
    } else {
        lines.skip(2)
    }
}

/// The byte totals of every interface in the counter table, whose first two
/// lines are headers.
pub fn read_total_traffic(content: &str) -> (r: (u64, u64))
    ensures
        r == totals(after_headers(lines_of(content@))),
{
    let lines = split_lines(content);
    let ghost ls = str_views(lines@);
    let mut total_rx: u64 = 0;
    let mut total_tx: u64 = 0;
    if lines.len() <= 2 {
        return (0, 0);
    }
    let mut i: usize = 2;
    while i < lines.len()
        invariant
            ls == str_views(lines@),
            2 <= i <= lines@.len(),
            (total_rx, total_tx) == totals(ls.subrange(2, i as int)),
        decreases lines.len() - i,
    {
        assert(ls.subrange(2, i + 1).drop_last() =~= ls.subrange(2, i as int));
        assert(ls.subrange(2, i + 1).last() == lines@[i as int]@);
        let parts = split_fields(lines[i]);
        match counts_from_fields(&parts) {
            Some((rx, tx)) => {
                total_rx = total_rx.saturating_add(rx);
                total_tx = total_tx.saturating_add(tx);
            },
            None => {},
        }
        i = i + 1;
    }
    assert(ls.subrange(2, lines@.len() as int) =~= ls.skip(2));
    (total_rx, total_tx)
}

/// The rates between the previous totals and the current ones, one second
/// apart; none for the first sample, whose previous received total is zero.
/// A counter that went backwards reads as zero.
pub fn traffic_rate(last: (u64, u64), now: (u64, u64)) -> (r: Option<TrafficStats>)
    ensures
        r is None <==> last.0 == 0,
        r matches Some(s) ==> s.down_speed == (if now.0 >= last.0 {
            now.0 - last.0
        } else {
            0
        }) && s.up_speed == (if now.1 >= last.1 {
            now.1 - last.1
        } else {
            0
        }),
{
    if last.0 == 0 {
        None
    } else {
        Some(
            TrafficStats {
                up_speed: now.1.saturating_sub(last.1),
                down_speed: now.0.saturating_sub(last.0),
            },
        )
    }
}

} // verus!
