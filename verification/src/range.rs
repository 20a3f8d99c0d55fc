//! The `Range` request header: parsing and evaluation against a file's size.
//!
//! Only the `bytes` unit is recognized. A header with another unit, a
//! malformed header, or one with more than one range is answered as
//! unsatisfiable. A single satisfiable range selects a half-open byte
//! interval of the file. A `first-last` range whose first position exceeds
//! its last is served as the whole file, a compatibility quirk that callers
//! rely on.

use crate::paths::split_at;
use crate::paths::split_from;
use vstd::prelude::*;
use vstd::string::StrSliceExecFns;

verus! {

/// One range of a `bytes=` header: `first-last`, `first-`, or `-n` (the
/// final `n` bytes).
#[derive(Clone, Copy, PartialEq, Eq, Structural, Debug)]
pub enum ByteRangeSpec {
    FromTo(u64, u64),
    AllFrom(u64),
    Last(u64),
}

/// What the range evaluation decides: serve the whole file, serve one
/// half-open byte interval `[start, end)`, or refuse the range.
#[derive(Clone, Copy, PartialEq, Eq, Structural, Debug)]
pub enum RangeOutcome {
    Full,
    Partial { start: u64, end: u64 },
    Unsatisfiable,
}

/// Whether `c` is a decimal digit.
pub open spec fn is_digit(c: char) -> bool {
    48 <= c as u32 <= 57
}

/// The value of the decimal digit `c`.
pub open spec fn digit_val(c: char) -> nat {
    (c as u32 - 48) as nat
}

/// Whether every character of `s` is a decimal digit.
pub open spec fn all_digits(s: Seq<char>) -> bool {
    forall|i: int| 0 <= i < s.len() ==> is_digit(s[i])
}

/// The value of the digit string `s`.
pub open spec fn dec_val(s: Seq<char>) -> nat
    decreases s.len(),
{
    if s.len() == 0 {
        0
    } else {
        dec_val(s.drop_last()) * 10 + digit_val(s.last())
    }
}

/// Whether `s` is a non-empty digit string whose value fits in a `u64`.
pub open spec fn valid_num(s: Seq<char>) -> bool {
    s.len() > 0 && all_digits(s) && dec_val(s) <= u64::MAX
}

/// The position of the first `-` in `s` at or after `i`, or `s.len()` if
/// there is none.
pub open spec fn dash_pos(s: Seq<char>, i: int) -> int
    recommends
        0 <= i <= s.len(),
    decreases s.len() - i,
{
    if i >= s.len() {
        s.len() as int
    } else if s[i] == '-' {
        i
    } else {
        dash_pos(s, i + 1)
    }
}

/// The range that the piece `p` (one comma-separated part of the header
/// value) denotes, or `None` if it is malformed.
pub open spec fn spec_parse_piece(p: Seq<char>) -> Option<ByteRangeSpec> {
    let k = dash_pos(p, 0);
    if k == p.len() {
        None
    } else {
        let left = p.take(k);
        let right = p.skip(k + 1);
        if left.len() == 0 {
            if valid_num(right) {
                Some(ByteRangeSpec::Last(dec_val(right) as u64))
            } else {
                None
            }
        } else if !valid_num(left) {
            None
        } else if right.len() == 0 {
            Some(ByteRangeSpec::AllFrom(dec_val(left) as u64))
        } else if valid_num(right) {
            Some(ByteRangeSpec::FromTo(dec_val(left) as u64, dec_val(right) as u64))
        } else {
            None
        }
    }
}

/// The ranges that the comma-separated pieces denote, or `None` if any piece
/// is malformed.
pub open spec fn spec_parse_pieces(ps: Seq<Seq<char>>) -> Option<Seq<ByteRangeSpec>> {
    if forall|i: int| 0 <= i < ps.len() ==> spec_parse_piece(ps[i]) is Some {
        Some(Seq::new(ps.len(), |i: int| spec_parse_piece(ps[i]).unwrap()))
    } else {
        None
    }
}

/// The prefix every recognized header value starts with.
pub open spec fn bytes_prefix() -> Seq<char> {
    seq!['b', 'y', 't', 'e', 's', '=']
}

/// The ranges that the header value `s` denotes: `None` when the unit is not
/// `bytes` or the list is malformed.
pub open spec fn spec_parse_range(s: Seq<char>) -> Option<Seq<ByteRangeSpec>> {
    if s.len() < 6 || s.take(6) != bytes_prefix() {
        None
    } else {
        spec_parse_pieces(split_at(s.skip(6), ','))
    }
}

/// How one range is answered for a file of `n` bytes. A `first-last` range
/// with `first > last` is served whole (the compatibility quirk); otherwise
/// a range that selects no byte is unsatisfiable.
pub open spec fn spec_eval_one(r: ByteRangeSpec, n: u64) -> RangeOutcome {
    match r {
        ByteRangeSpec::FromTo(a, b) => if a > b {
            RangeOutcome::Full
        } else if a >= n {
            RangeOutcome::Unsatisfiable
        } else {
            RangeOutcome::Partial {
                start: a,
                end: if b + 1 < n { (b + 1) as u64 } else { n },
            }
        },
        ByteRangeSpec::AllFrom(a) => if a >= n {
            RangeOutcome::Unsatisfiable
        } else {
            RangeOutcome::Partial { start: a, end: n }
        },
        ByteRangeSpec::Last(k) => if k == 0 || n == 0 {
            RangeOutcome::Unsatisfiable
        } else {
            RangeOutcome::Partial { start: if k < n { (n - k) as u64 } else { 0 }, end: n }
        },
    }
}

/// How the whole header value is answered for a file of `n` bytes: an absent
/// header serves the whole file; a malformed header, a unit other than
/// `bytes`, or more than one range is unsatisfiable.
pub open spec fn range_outcome_of(header: Option<Seq<char>>, n: u64) -> RangeOutcome {
    match header {
        None => RangeOutcome::Full,
        Some(h) => match spec_parse_range(h) {
            None => RangeOutcome::Unsatisfiable,
            Some(specs) => if specs.len() == 1 {
                spec_eval_one(specs[0], n)
            } else {
                RangeOutcome::Unsatisfiable
            },
        },
    }
}

/// A selected interval lies inside the file and is never empty.
pub proof fn lemma_partial_in_bounds(header: Option<Seq<char>>, n: u64)
    ensures
        range_outcome_of(header, n) matches RangeOutcome::Partial { start, end } ==> start < end
            <= n,
{
}

proof fn lemma_dec_val_prefix(s: Seq<char>, k: int)
    requires
        all_digits(s),
        0 <= k <= s.len(),
    ensures
        dec_val(s.take(k)) <= dec_val(s),
    decreases s.len() - k,
{
    if k == s.len() {
        assert(s.take(k) =~= s);
    } else {
        lemma_dec_val_prefix(s, k + 1);
        assert(s.take(k + 1).drop_last() =~= s.take(k));
        assert(s.take(k + 1).last() == s[k]);
        assert(dec_val(s.take(k + 1)) == dec_val(s.take(k)) * 10 + digit_val(s[k]));
    }
}

/// Parses a non-empty digit string as a `u64`; `None` when `d` is empty,
/// holds a non-digit, or overflows.
fn parse_u64(d: &str) -> (r: Option<u64>)
    ensures
        valid_num(d@) ==> r == Some(dec_val(d@) as u64),
        !valid_num(d@) ==> r is None,
{
    let n = d.unicode_len();
    if n == 0 {
        return None;
    }
    for i in 0..n
        invariant
            n == d@.len(),
            forall|j: int| 0 <= j < i ==> is_digit(d@[j]),
    {
        let c = d.get_char(i);
        if (c as u32) < 48 || (c as u32) > 57 {
            assert(!is_digit(d@[i as int]));
            return None;
        }
    }
    assert(all_digits(d@));
    let mut acc: u64 = 0;
    for i in 0..n
        invariant
            n == d@.len(),
            all_digits(d@),
            acc == dec_val(d@.take(i as int)),
    {
        let c = d.get_char(i);
        proof {
            assert(is_digit(d@[i as int]));
        }
        let dv: u64 = (c as u32 - 48) as u64;
        proof {
            assert(dv == digit_val(d@[i as int]));
            assert(d@.take(i + 1 as int).drop_last() =~= d@.take(i as int));
            assert(d@.take(i + 1 as int).last() == d@[i as int]);
        }
        if acc > 1844674407370955161u64 || (acc == 1844674407370955161u64 && dv > 5) {
            proof {
                assert(dec_val(d@.take(i + 1 as int)) > u64::MAX);
                lemma_dec_val_prefix(d@, i + 1 as int);
            }
            return None;
        }
        acc = acc * 10 + dv;
    }
    proof {
        assert(d@.take(n as int) =~= d@);
    }
    Some(acc)
}

/// Parses one comma-separated piece of the header value.
fn parse_piece(p: &str) -> (r: Option<ByteRangeSpec>)
    ensures
        r == spec_parse_piece(p@),
{
    let n = p.unicode_len();
    let mut k: usize = 0;
    loop
        invariant
            0 <= k <= n == p@.len(),
            dash_pos(p@, 0) == dash_pos(p@, k as int),
        ensures
            k as int == dash_pos(p@, 0),
            k <= n == p@.len(),
        decreases n - k,
    {
        if k == n {
            proof {
                assert(dash_pos(p@, k as int) == p@.len());
            }
            break ;
        }
        if p.get_char(k) == '-' {
            proof {
                assert(dash_pos(p@, k as int) == k as int);
            }
            break ;
        }
        k = k + 1;
    }
    if k == n {
        return None;
    }
    let left = p.substring_char(0, k);
    let right = p.substring_char(k + 1, n);
    proof {
        assert(left@ =~= p@.take(k as int));
        assert(right@ =~= p@.skip(k + 1 as int));
    }
    if k == 0 {
        match parse_u64(right) {
            Some(v) => Some(ByteRangeSpec::Last(v)),
            None => None,
        }
    } else {
        match parse_u64(left) {
            None => None,
            Some(a) => {
                if right.unicode_len() == 0 {
                    Some(ByteRangeSpec::AllFrom(a))
                } else {
                    match parse_u64(right) {
                        Some(b) => Some(ByteRangeSpec::FromTo(a, b)),
                        None => None,
                    }
                }
            },
        }
    }
}

/// Parses the value of a `Range` header; `None` when the unit is not `bytes`
/// or the list is malformed.
pub fn parse_range_header(s: &str) -> (r: Option<Vec<ByteRangeSpec>>)
    ensures
        match r {
            Some(v) => spec_parse_range(s@) == Some(v@),
            None => spec_parse_range(s@) is None,
        },
{
    let n = s.unicode_len();
    if n < 6 {
        return None;
    }
    if !(s.get_char(0) == 'b' && s.get_char(1) == 'y' && s.get_char(2) == 't' && s.get_char(3)
        == 'e' && s.get_char(4) == 's' && s.get_char(5) == '=') {
        proof {
            assert(s@.take(6) != bytes_prefix());
        }
        return None;
    }
    proof {
        assert(s@.take(6) =~= bytes_prefix());
    }
    let rest = s.substring_char(6, n);
    proof {
        assert(rest@ =~= s@.skip(6));
    }
    let ghost pieces = split_at(rest@, ',');
    let m = rest.unicode_len();
    let mut out: Vec<ByteRangeSpec> = Vec::new();
    let mut start: usize = 0;
    let mut i: usize = 0;
    let ghost mut done: Seq<Seq<char>> = Seq::empty();
    loop
        invariant_except_break
            0 <= start <= i <= m == rest@.len(),
            pieces == done + split_from(rest@, ',', start as int, i as int),
        invariant
            s@.len() >= 6,
            s@.take(6) == bytes_prefix(),
            rest@ == s@.skip(6),
            pieces == split_at(rest@, ','),
            out@.len() == done.len(),
            forall|j: int|
                0 <= j < done.len() ==> spec_parse_piece(done[j]) == Some(out@[j]),
        ensures
            done == pieces,
        decreases m - i + 1,
    {
        if i == m || rest.get_char(i) == ',' {
            let piece = rest.substring_char(start, i);
            match parse_piece(piece) {
                None => {
                    proof {
                        assert(piece@ =~= rest@.subrange(start as int, i as int));
                        if i == m {
                            assert(split_from(rest@, ',', start as int, i as int) =~= seq![
                                piece@,
                            ]);
                        } else {
                            assert(rest@[i as int] == ',');
                            assert(split_from(rest@, ',', start as int, i as int) == seq![
                                rest@.subrange(start as int, i as int),
                            ] + split_from(rest@, ',', i + 1 as int, i + 1 as int));
                        }
                        let bad = done.len() as int;
                        assert(0 <= bad < pieces.len());
                        assert(pieces[bad] == piece@);
                        assert(spec_parse_piece(pieces[bad]) is None);
                        assert(spec_parse_pieces(pieces) is None);
                        assert(rest@ == s@.skip(6));
                        assert(spec_parse_range(s@) is None);
                    }
                    return None;
                },
                Some(r) => {
                    out.push(r);
                    proof {
                        done = done.push(piece@);
                    }
                },
            }
            if i == m {
                proof {
                    assert(split_from(rest@, ',', start as int, i as int) =~= seq![
                        rest@.subrange(start as int, i as int),
                    ]);
                    assert(done =~= pieces);
                }
                break ;
            }
            i = i + 1;
            start = i;
        } else {
            i = i + 1;
        }
    }
    proof {
        assert(spec_parse_pieces(pieces) == Some(out@)) by {
            assert(forall|j: int|
                0 <= j < pieces.len() ==> spec_parse_piece(pieces[j]) is Some);
            let w = Seq::new(pieces.len(), |j: int| spec_parse_piece(pieces[j]).unwrap());
            assert(w =~= out@);
        }
    }
    Some(out)
}

/// Evaluates the `Range` header (if any) against a file of `n` bytes.
pub fn evaluate_range(header: &Option<String>, n: u64) -> (r: RangeOutcome)
    ensures
        r == range_outcome_of(
            match header {
                Some(h) => Some(h@),
                None => None,
            },
            n,
        ),
{
    match header {
        None => RangeOutcome::Full,
        Some(h) => {
            match parse_range_header(h.as_str()) {
                None => RangeOutcome::Unsatisfiable,
                Some(specs) => {
                    if specs.len() != 1 {
                        RangeOutcome::Unsatisfiable
                    } else {
                        evaluate_one(specs[0], n)
                    }
                },
            }
        },
    }
}

/// Evaluates one parsed range against a file of `n` bytes.
pub fn evaluate_one(r: ByteRangeSpec, n: u64) -> (o: RangeOutcome)
    ensures
        o == spec_eval_one(r, n),
{
    match r {
        ByteRangeSpec::FromTo(a, b) => {
            if a > b {
                RangeOutcome::Full
            } else if a >= n {
                RangeOutcome::Unsatisfiable
            } else {
                let end = if b < n - 1 {
                    b + 1
                } else {
                    n
                };
                RangeOutcome::Partial { start: a, end }
            }
        },
        ByteRangeSpec::AllFrom(a) => {
            if a >= n {
                RangeOutcome::Unsatisfiable
            } else {
                RangeOutcome::Partial { start: a, end: n }
            }
        },
        ByteRangeSpec::Last(k) => {
            if k == 0 || n == 0 {
                RangeOutcome::Unsatisfiable
            } else {
                let start = if k < n {
                    n - k
                } else {
                    0
                };
                RangeOutcome::Partial { start, end: n }
            }
        },
    }
}

} // verus!
