//! Minute scoping: an inclusive, 1-based range of minutes to execute.
//!
//! A range is written `A:B` or `A..B`, with optional whitespace around the
//! whole and around each number; minute indexing is 1-based and the range
//! must not be empty.  The default covers every minute.

use vstd::prelude::*;

use vstd::string::StringSliceAdditionalSpecFns;

use crate::source::error::SourceError;

verus! {

/// An inclusive range of 1-based minutes.
#[derive(Clone, Copy, Debug, PartialEq, Eq, Structural)]
pub struct MinuteRange(pub u16, pub u16);

pub open spec fn is_ws_byte(b: u8) -> bool {
    b == 32 || b == 9 || b == 10 || b == 13
}

pub open spec fn trim_start_bytes(s: Seq<u8>) -> Seq<u8>
    decreases s.len(),
{
    if s.len() > 0 && is_ws_byte(s[0]) {
        trim_start_bytes(s.skip(1))
    } else {
        s
    }
}

pub open spec fn trim_end_bytes(s: Seq<u8>) -> Seq<u8>
    decreases s.len(),
{
    if s.len() > 0 && is_ws_byte(s.last()) {
        trim_end_bytes(s.drop_last())
    } else {
        s
    }
}

/// ASCII whitespace stripped from both ends.
pub open spec fn trim_bytes(s: Seq<u8>) -> Seq<u8> {
    trim_end_bytes(trim_start_bytes(s))
}

/// The first position of a byte, if any.
pub open spec fn find_byte(s: Seq<u8>, b: u8) -> Option<int>
    decreases s.len(),
{
    if s.len() == 0 {
        None
    } else if s[0] == b {
        Some(0)
    } else {
        match find_byte(s.skip(1), b) {
            Some(i) => Some(i + 1),
            None => None,
        }
    }
}

/// The first position of `..`, if any.
pub open spec fn find_dotdot_bytes(s: Seq<u8>) -> Option<int>
    decreases s.len(),
{
    if s.len() < 2 {
        None
    } else if s[0] == 46 && s[1] == 46 {
        Some(0)
    } else {
        match find_dotdot_bytes(s.skip(1)) {
            Some(i) => Some(i + 1),
            None => None,
        }
    }
}

pub open spec fn is_digit_byte(b: u8) -> bool {
    48 <= b <= 57
}

pub open spec fn all_digit_bytes(s: Seq<u8>) -> bool {
    forall|i: int| 0 <= i < s.len() ==> is_digit_byte(#[trigger] s[i])
}

/// The value of a digit string, most significant digit first.
pub open spec fn dec_val_bytes(s: Seq<u8>) -> int
    decreases s.len(),
{
    if s.len() == 0 {
        0
    } else {
        dec_val_bytes(s.drop_last()) * 10 + (s.last() - 48)
    }
}

/// The value of a pure digit string, when there is one and it fits 16 bits.
pub open spec fn parse_u16_digits(t: Seq<u8>) -> Option<u16> {
    if t.len() == 0 || !all_digit_bytes(t) || dec_val_bytes(t) > 65535 {
        None
    } else {
        Some(dec_val_bytes(t) as u16)
    }
}

/// What `str::parse::<u16>` accepts: an optional leading `+`, then at least
/// one decimal digit, the value fitting in 16 bits.
pub open spec fn parse_u16_bytes(s: Seq<u8>) -> Option<u16> {
    parse_u16_digits(
        if s.len() > 0 && s[0] == 43 {
            s.skip(1)
        } else {
            s
        },
    )
}

/// Split at the first `:`, or else at the first `..`.
pub open spec fn split_minutes(s: Seq<u8>) -> Option<(Seq<u8>, Seq<u8>)> {
    match find_byte(s, 58) {
        Some(i) => Some((s.take(i), s.skip(i + 1))),
        None => match find_dotdot_bytes(s) {
            Some(i) => Some((s.take(i), s.skip(i + 2))),
            None => None,
        },
    }
}

/// The whole grammar: trim, split at `:` or `..`, parse each side as a `u16`
/// after trimming it.
pub open spec fn parse_minute_range_bytes(s: Seq<u8>) -> Option<(u16, u16)> {
    match split_minutes(trim_bytes(s)) {
        None => None,
        Some(parts) => match parse_u16_bytes(trim_bytes(parts.0)) {
            None => None,
            Some(first) => match parse_u16_bytes(trim_bytes(parts.1)) {
                None => None,
                Some(last) => Some((first, last)),
            },
        },
    }
}

impl MinuteRange {
    /// A valid range starts at minute one or later and does not run backwards.
    pub open spec fn wf(self) -> bool {
        1 <= self.0 <= self.1
    }

    pub open spec fn spec_contains(self, minute: u16) -> bool {
        self.0 <= minute <= self.1
    }

    /// Build a range, rejecting a zero start (minutes are 1-based) and a
    /// start past the end.
    pub fn new_inclusive(first: u16, last: u16) -> (r: Result<Self, SourceError>)
        ensures
            r is Ok <==> (1 <= first && first <= last),
            r is Ok ==> r->Ok_0 == MinuteRange(first, last),
            r is Err ==> r->Err_0 is Minute,
    {
        if first == 0 {
            return Err(SourceError::Minute { msg: "minute indexing is 1-based".to_owned() });
        }
        if first > last {
            return Err(SourceError::Minute { msg: "first is past last".to_owned() });
        }
        Ok(MinuteRange(first, last))
    }

    /// The first minute of the range.
    pub fn start(&self) -> (r: u16)
        ensures
            r == self.0,
    {
        self.0
    }

    /// The last minute of the range.
    pub fn end(&self) -> (r: u16)
        ensures
            r == self.1,
    {
        self.1
    }

    /// Whether a minute falls inside the range.
    pub fn contains(&self, minute: u16) -> (r: bool)
        ensures
            r == self.spec_contains(minute),
    {
        minute >= self.0 && minute <= self.1
    }

    /// Parse a range written `A:B` or `A..B`.
    pub fn parse_str(s: &str) -> (r: Result<Self, SourceError>)
        ensures
            r is Ok <==> ({
                let p = parse_minute_range_bytes(s.spec_bytes());
                p is Some && ({
                    let q = p->0;
                    1 <= q.0 <= q.1
                })
            }),
            r is Ok ==> ({
                let q = parse_minute_range_bytes(s.spec_bytes())->0;
                r->Ok_0 == MinuteRange(q.0, q.1)
            }),
            r is Err ==> r->Err_0 is Minute,
    {
        let b = s.as_bytes();
        let n = b.len();
        proof {
            assert(b@.subrange(0, b@.len() as int) =~= b@);
        }
        let (lo, hi) = trim_range(b, 0, n);
        let ghost trimmed = trim_bytes(b@);
        match find_colon(b, lo, hi) {
            Some(i) => {
                proof {
                    assert(trimmed.take(i - lo) =~= b@.subrange(lo as int, i as int));
                    assert(trimmed.skip(i - lo + 1) =~= b@.subrange(i as int + 1, hi as int));
                }
                parse_parts(b, lo, i, i + 1, hi)
            },
            None => match find_dotdot(b, lo, hi) {
                Some(i) => {
                    proof {
                        assert(trimmed.take(i - lo) =~= b@.subrange(lo as int, i as int));
                        assert(trimmed.skip(i - lo + 2) =~= b@.subrange(i as int + 2, hi as int));
                    }
                    parse_parts(b, lo, i, i + 2, hi)
                },
                None => Err(SourceError::Minute { msg: "invalid format".to_owned() }),
            },
        }
    }
}

impl Default for MinuteRange {
    /// The default range covers every minute.
    fn default() -> (r: Self)
        ensures
            r == MinuteRange(1u16, 65535u16),
    {
        MinuteRange(1, 65535)
    }
}

impl core::str::FromStr for MinuteRange {
    type Err = SourceError;

    fn from_str(s: &str) -> Result<MinuteRange, SourceError> {
        MinuteRange::parse_str(s)
    }
}

/// Parse the two sides of an already-split range text.
fn parse_parts(b: &[u8], alo: usize, ahi: usize, blo: usize, bhi: usize) -> (r: Result<
    MinuteRange,
    SourceError,
>)
    requires
        alo <= ahi <= b@.len(),
        blo <= bhi <= b@.len(),
    ensures
        ({
            let pf = parse_u16_bytes(trim_bytes(b@.subrange(alo as int, ahi as int)));
            let pl = parse_u16_bytes(trim_bytes(b@.subrange(blo as int, bhi as int)));
            &&& (r is Ok <==> (pf is Some && pl is Some && 1 <= pf->0 <= pl->0))
            &&& (r is Ok ==> r->Ok_0 == MinuteRange(pf->0, pl->0))
            &&& (r is Err ==> r->Err_0 is Minute)
        }),
{
    let (fl, fh) = trim_range(b, alo, ahi);
    let first = match parse_u16_range(b, fl, fh) {
        Some(v) => v,
        None => {
            return Err(SourceError::Minute { msg: "first minute is not a number".to_owned() });
        },
    };
    let (ll, lh) = trim_range(b, blo, bhi);
    let last = match parse_u16_range(b, ll, lh) {
        Some(v) => v,
        None => {
            return Err(SourceError::Minute { msg: "last minute is not a number".to_owned() });
        },
    };
    MinuteRange::new_inclusive(first, last)
}

/// Strip ASCII whitespace from both ends of `b[lo..hi]`, returning the
/// narrowed bounds.
fn trim_range(b: &[u8], lo: usize, hi: usize) -> (r: (usize, usize))
    requires
        lo <= hi <= b@.len(),
    ensures
        lo <= r.0 <= r.1 <= hi,
        trim_bytes(b@.subrange(lo as int, hi as int)) == b@.subrange(r.0 as int, r.1 as int),
{
    let mut i = lo;
    while i < hi && (b[i] == 32 || b[i] == 9 || b[i] == 10 || b[i] == 13)
        invariant
            lo <= i <= hi <= b@.len(),
            trim_start_bytes(b@.subrange(lo as int, hi as int)) == trim_start_bytes(
                b@.subrange(i as int, hi as int),
            ),
        decreases hi - i,
    {
        proof {
            assert(b@.subrange(i as int, hi as int)[0] == b@[i as int]);
            assert(b@.subrange(i as int, hi as int).skip(1) =~= b@.subrange(
                i as int + 1,
                hi as int,
            ));
        }
        i = i + 1;
    }
    proof {
        if i < hi {
            assert(b@.subrange(i as int, hi as int)[0] == b@[i as int]);
        }
        assert(trim_start_bytes(b@.subrange(i as int, hi as int)) == b@.subrange(
            i as int,
            hi as int,
        ));
    }
    let lo2 = i;
    let mut j = hi;
    while j > lo2 && (b[j - 1] == 32 || b[j - 1] == 9 || b[j - 1] == 10 || b[j - 1] == 13)
        invariant
            lo2 <= j <= hi <= b@.len(),
            trim_end_bytes(b@.subrange(lo2 as int, hi as int)) == trim_end_bytes(
                b@.subrange(lo2 as int, j as int),
            ),
        decreases j,
    {
        proof {
            let t = b@.subrange(lo2 as int, j as int);
            assert(t.last() == b@[j as int - 1]);
            assert(t.drop_last() =~= b@.subrange(lo2 as int, j as int - 1));
        }
        j = j - 1;
    }
    proof {
        if j > lo2 {
            assert(b@.subrange(lo2 as int, j as int).last() == b@[j as int - 1]);
        }
        assert(trim_end_bytes(b@.subrange(lo2 as int, j as int)) == b@.subrange(
            lo2 as int,
            j as int,
        ));
    }
    (lo2, j)
}

/// The first `:` in `b[lo..hi]`, as an absolute position.
fn find_colon(b: &[u8], lo: usize, hi: usize) -> (r: Option<usize>)
    requires
        lo <= hi <= b@.len(),
    ensures
        ({
            let f = find_byte(b@.subrange(lo as int, hi as int), 58);
            match r {
                Some(i) => lo <= i < hi && f == Some(i - lo),
                None => f is None,
            }
        }),
{
    let mut i = lo;
    while i < hi
        invariant
            lo <= i <= hi <= b@.len(),
            find_byte(b@.subrange(lo as int, hi as int), 58) == (match find_byte(
                b@.subrange(i as int, hi as int),
                58,
            ) {
                Some(k) => Some(k + i - lo),
                None => None::<int>,
            }),
        decreases hi - i,
    {
        proof {
            assert(b@.subrange(i as int, hi as int)[0] == b@[i as int]);
            assert(b@.subrange(i as int, hi as int).skip(1) =~= b@.subrange(
                i as int + 1,
                hi as int,
            ));
        }
        if b[i] == 58 {
            return Some(i);
        }
        i = i + 1;
    }
    None
}

/// The first `..` in `b[lo..hi]`, as an absolute position.
fn find_dotdot(b: &[u8], lo: usize, hi: usize) -> (r: Option<usize>)
    requires
        lo <= hi <= b@.len(),
    ensures
        ({
            let f = find_dotdot_bytes(b@.subrange(lo as int, hi as int));
            match r {
                Some(i) => lo <= i && i + 2 <= hi && f == Some(i - lo),
                None => f is None,
            }
        }),
{
    if hi - lo < 2 {
        return None;
    }
    let mut i = lo;
    while i < hi - 1
        invariant
            2 <= hi <= b@.len(),
            lo <= i <= hi,
            find_dotdot_bytes(b@.subrange(lo as int, hi as int)) == (match find_dotdot_bytes(
                b@.subrange(i as int, hi as int),
            ) {
                Some(k) => Some(k + i - lo),
                None => None::<int>,
            }),
        decreases hi - i,
    {
        proof {
            assert(b@.subrange(i as int, hi as int)[0] == b@[i as int]);
            assert(b@.subrange(i as int, hi as int)[1] == b@[i as int + 1]);
            assert(b@.subrange(i as int, hi as int).skip(1) =~= b@.subrange(
                i as int + 1,
                hi as int,
            ));
        }
        if b[i] == 46 && b[i + 1] == 46 {
            return Some(i);
        }
        i = i + 1;
    }
    None
}

proof fn lemma_dec_val_nonneg(s: Seq<u8>)
    requires
        all_digit_bytes(s),
    ensures
        dec_val_bytes(s) >= 0,
    decreases s.len(),
{
    if s.len() > 0 {
        assert forall|i: int| 0 <= i < s.drop_last().len() implies is_digit_byte(
            #[trigger] s.drop_last()[i],
        ) by {
            assert(s.drop_last()[i] == s[i]);
        }
        lemma_dec_val_nonneg(s.drop_last());
    }
}

/// A digit string's value only grows as more digits follow.
proof fn lemma_dec_val_monotone(s: Seq<u8>, k: int)
    requires
        0 <= k <= s.len(),
        all_digit_bytes(s),
    ensures
        dec_val_bytes(s) >= dec_val_bytes(s.take(k)),
        dec_val_bytes(s.take(k)) >= 0,
    decreases s.len() - k,
{
    assert forall|i: int| 0 <= i < s.take(k).len() implies is_digit_byte(
        #[trigger] s.take(k)[i],
    ) by {
        assert(s.take(k)[i] == s[i]);
    }
    lemma_dec_val_nonneg(s.take(k));
    if k == s.len() {
        assert(s.take(k) =~= s);
    } else {
        lemma_dec_val_monotone(s, k + 1);
        assert(s.take(k + 1).drop_last() =~= s.take(k));
        assert(s.take(k + 1).last() == s[k]);
    }
}

/// Parse `b[lo..hi]` as `str::parse::<u16>` would.
fn parse_u16_range(b: &[u8], lo: usize, hi: usize) -> (r: Option<u16>)
    requires
        lo <= hi <= b@.len(),
    ensures
        r == parse_u16_bytes(b@.subrange(lo as int, hi as int)),
{
    let ghost whole = b@.subrange(lo as int, hi as int);
    let mut start = lo;
    if lo < hi && b[lo] == 43 {
        start = lo + 1;
        proof {
            assert(whole[0] == b@[lo as int]);
            assert(whole.skip(1) =~= b@.subrange(lo as int + 1, hi as int));
        }
    } else {
        proof {
            if whole.len() > 0 {
                assert(whole[0] == b@[lo as int]);
            }
        }
    }
    let ghost t = b@.subrange(start as int, hi as int);
    if start == hi {
        return None;
    }
    let mut i = start;
    let mut val: u32 = 0;
    proof {
        assert(t.take(0) =~= Seq::<u8>::empty());
    }
    while i < hi
        invariant
            start <= i <= hi <= b@.len(),
            t == b@.subrange(start as int, hi as int),
            t.len() == hi - start,
            parse_u16_bytes(b@.subrange(lo as int, hi as int)) == parse_u16_digits(t),
            val == dec_val_bytes(t.take(i - start)),
            val <= 65535,
            all_digit_bytes(t.take(i - start)),
        decreases hi - i,
    {
        let c = b[i];
        proof {
            assert(t[i - start] == b@[i as int]);
        }
        if c < 48 || c > 57 {
            proof {
                assert(!is_digit_byte(t[i - start]));
            }
            return None;
        }
        proof {
            assert(t.take(i - start + 1).drop_last() =~= t.take(i - start));
            assert(t.take(i - start + 1).last() == t[i - start]);
            assert forall|k: int| 0 <= k < t.take(i - start + 1).len() implies is_digit_byte(
                #[trigger] t.take(i - start + 1)[k],
            ) by {
                if k < i - start {
                    assert(t.take(i - start + 1)[k] == t.take(i - start)[k]);
                } else {
                    assert(t.take(i - start + 1)[k] == t[i - start]);
                }
            }
        }
        let v2: u32 = val * 10 + (c - 48) as u32;
        if v2 > 65535 {
            proof {
                if all_digit_bytes(t) {
                    lemma_dec_val_monotone(t, i - start + 1);
                }
            }
            return None;
        }
        val = v2;
        i = i + 1;
    }
    proof {
        assert(t.take(hi - start) =~= t);
    }
    Some(val as u16)
}

} // verus!
