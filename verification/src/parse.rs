//! Parsing the "MM:SS" duration text a user types when creating a
//! countdown. The grammar is deliberately forgiving: one field means bare
//! seconds, two fields mean minutes and seconds, each field is trimmed of
//! ASCII whitespace and read as an optionally '+'-signed decimal number,
//! an unreadable field counts as zero, and anything else — more than one
//! ':', or a value past the machine word — yields zero milliseconds.

use vstd::prelude::*;

use vstd::slice::slice_subrange;
use vstd::string::StringSliceAdditionalSpecFns;

verus! {

/// ASCII whitespace accepted around a number field.
pub open spec fn is_space(b: u8) -> bool {
    b == 32 || (9 <= b && b <= 13)
}

/// `b` with leading and trailing ASCII whitespace removed.
pub open spec fn spec_trim(b: Seq<u8>) -> Seq<u8>
    decreases b.len(),
{
    if b.len() > 0 && is_space(b.first()) {
        spec_trim(b.drop_first())
    } else if b.len() > 0 && is_space(b.last()) {
        spec_trim(b.drop_last())
    } else {
        b
    }
}

/// Every byte is an ASCII digit.
pub open spec fn all_digits(b: Seq<u8>) -> bool {
    forall|i: int| 0 <= i < b.len() ==> 48 <= #[trigger] b[i] <= 57
}

/// The number the digit bytes spell, most significant first.
pub open spec fn digits_value(b: Seq<u8>) -> int
    decreases b.len(),
{
    if b.len() == 0 {
        0
    } else {
        digits_value(b.drop_last()) * 10 + (b.last() - 48)
    }
}

/// One number field: trimmed, an optional leading '+', then at least one
/// digit, and a value that fits the machine word — else nothing.
pub open spec fn spec_parse_u64(b: Seq<u8>) -> Option<u64> {
    let t = spec_trim(b);
    let d = if t.len() > 0 && t.first() == 43 {
        t.drop_first()
    } else {
        t
    };
    if d.len() > 0 && all_digits(d) && digits_value(d) <= u64::MAX {
        Some(digits_value(d) as u64)
    } else {
        None
    }
}

/// How many ':' bytes occur. (In UTF-8, a colon byte is always a colon
/// character.)
pub open spec fn count_colons(b: Seq<u8>) -> int
    decreases b.len(),
{
    if b.len() == 0 {
        0
    } else {
        count_colons(b.drop_last()) + if b.last() == 58 {
            1int
        } else {
            0int
        }
    }
}

/// The index of the first ':' byte, or the length when there is none.
pub open spec fn find_colon(b: Seq<u8>) -> int
    decreases b.len(),
{
    if b.len() == 0 {
        0
    } else if b.first() == 58 {
        0
    } else {
        1 + find_colon(b.drop_first())
    }
}

/// The milliseconds the input spells. With no ':' the whole input is a
/// seconds field; with one ':' the two fields are minutes and seconds, an
/// unreadable field counting as zero; with more than one ':' — or a result
/// past the machine word — the input is worth zero.
pub open spec fn spec_parse_mmss(b: Seq<u8>) -> u64 {
    let n = count_colons(b);
    if n == 0 {
        match spec_parse_u64(b) {
            Some(secs) => if secs * 1000 <= u64::MAX {
                (secs * 1000) as u64
            } else {
                0
            },
            None => 0,
        }
    } else if n == 1 {
        let i = find_colon(b);
        let mins = match spec_parse_u64(b.subrange(0, i)) {
            Some(v) => v,
            None => 0,
        };
        let secs = match spec_parse_u64(b.subrange(i + 1, b.len() as int)) {
            Some(v) => v,
            None => 0,
        };
        if (mins * 60 + secs) * 1000 <= u64::MAX {
            ((mins * 60 + secs) * 1000) as u64
        } else {
            0
        }
    } else {
        0
    }
}

/// A digit string is worth at least any of its prefixes (and never less
/// than zero).
proof fn lemma_digits_value_monotone(s: Seq<u8>, n: int)
    requires
        all_digits(s),
        0 <= n <= s.len(),
    ensures
        digits_value(s) >= digits_value(s.subrange(0, n)),
        digits_value(s) >= 0,
    decreases s.len(),
{
    if s.len() == 0 {
        assert(s.subrange(0, n) =~= s);
    } else {
        assert(all_digits(s.drop_last()));
        lemma_digits_value_monotone(s.drop_last(), if n <= s.len() - 1 {
            n
        } else {
            s.len() - 1
        });
        if n == s.len() {
            assert(s.subrange(0, n) =~= s);
        } else {
            assert(s.subrange(0, n) =~= s.drop_last().subrange(0, n));
        }
    }
}

/// The first index with no colon before it and a colon (or the end) at it
/// is what [`find_colon`] computes.
proof fn lemma_find_colon_at(b: Seq<u8>, i: int)
    requires
        0 <= i <= b.len(),
        forall|j: int| 0 <= j < i ==> b[j] != 58,
        i < b.len() ==> b[i] == 58,
    ensures
        find_colon(b) == i,
    decreases i,
{
    if b.len() == 0 {
    } else if i == 0 {
    } else {
        assert(b.first() != 58);
        assert(forall|j: int| 0 <= j < i - 1 ==> b.drop_first()[j] != 58);
        assert(i - 1 < b.drop_first().len() ==> b.drop_first()[i - 1] == 58);
        lemma_find_colon_at(b.drop_first(), i - 1);
    }
}

/// Read one trimmed, optionally '+'-signed decimal field.
fn parse_u64_field(b: &[u8]) -> (r: Option<u64>)
    ensures
        r == spec_parse_u64(b@),
{
    let mut lo: usize = 0;
    let mut hi: usize = b.len();
    proof {
        assert(b@.subrange(0, b@.len() as int) =~= b@);
    }
    while lo < hi && (b[lo] == 32 || (b[lo] >= 9 && b[lo] <= 13))
        invariant
            lo <= hi <= b@.len(),
            spec_trim(b@) == spec_trim(b@.subrange(lo as int, hi as int)),
        decreases hi - lo,
    {
        proof {
            assert(b@.subrange(lo as int, hi as int).drop_first() =~= b@.subrange(
                lo as int + 1,
                hi as int,
            ));
        }
        lo = lo + 1;
    }
    while hi > lo && (b[hi - 1] == 32 || (b[hi - 1] >= 9 && b[hi - 1] <= 13))
        invariant
            lo <= hi <= b@.len(),
            spec_trim(b@) == spec_trim(b@.subrange(lo as int, hi as int)),
            lo < hi ==> !is_space(b@[lo as int]),
        decreases hi - lo,
    {
        proof {
            assert(b@.subrange(lo as int, hi as int).drop_last() =~= b@.subrange(
                lo as int,
                hi as int - 1,
            ));
        }
        hi = hi - 1;
    }
    let ghost t = b@.subrange(lo as int, hi as int);
    proof {
        assert(spec_trim(t) == t);
    }
    let mut i = lo;
    if i < hi && b[i] == 43 {
        i = i + 1;
        proof {
            assert(t.drop_first() =~= b@.subrange(i as int, hi as int));
        }
    }
    let ghost d = b@.subrange(i as int, hi as int);
    if i == hi {
        proof {
            assert(d.len() == 0);
        }
        return None;
    }
    let start = i;
    let mut val: u64 = 0;
    let mut j = i;
    while j < hi
        invariant
            start <= j <= hi <= b@.len(),
            d == b@.subrange(start as int, hi as int),
            d.len() > 0,
            spec_parse_u64(b@) == (if d.len() > 0 && all_digits(d) && digits_value(d) <= u64::MAX {
                Some(digits_value(d) as u64)
            } else {
                None::<u64>
            }),
            all_digits(b@.subrange(start as int, j as int)),
            val == digits_value(b@.subrange(start as int, j as int)),
        decreases hi - j,
    {
        let c = b[j];
        if c < 48 || c > 57 {
            proof {
                assert(d[j - start] == c);
                assert(!all_digits(d));
            }
            return None;
        }
        let ghost pre = b@.subrange(start as int, j as int);
        let ghost cur = b@.subrange(start as int, j as int + 1);
        proof {
            assert(cur.drop_last() =~= pre);
            assert(cur.last() == c);
            assert(forall|k: int| 0 <= k < pre.len() ==> 48 <= #[trigger] pre[k] <= 57);
            assert(all_digits(cur)) by {
                assert(forall|k: int|
                    0 <= k < cur.len() - 1 ==> cur[k] == #[trigger] pre[k]);
            }
        }
        let stepped = match val.checked_mul(10) {
            Some(v) => v.checked_add((c - 48) as u64),
            None => None,
        };
        match stepped {
            Some(v) => {
                val = v;
            },
            None => {
                proof {
                    assert(digits_value(cur) == val * 10 + (c - 48));
                    assert(digits_value(cur) > u64::MAX);
                    if all_digits(d) {
                        lemma_digits_value_monotone(d, j as int + 1 - start);
                        assert(d.subrange(0, j as int + 1 - start) =~= cur);
                        assert(digits_value(d) > u64::MAX);
                    }
                }
                return None;
            },
        }
        j = j + 1;
    }
    proof {
        assert(b@.subrange(start as int, j as int) =~= d);
    }
    Some(val)
}

/// Parse a user-typed "MM:SS" (or bare seconds) duration into
/// milliseconds.
pub fn parse_mmss(s: &str) -> (r: u64)
    ensures
        r == spec_parse_mmss(s.spec_bytes()),
{
    let b = s.as_bytes();
    let mut i: usize = 0;
    let mut colons: usize = 0;
    while i < b.len()
        invariant
            i <= b@.len(),
            colons <= i,
            colons == count_colons(b@.subrange(0, i as int)),
        decreases b@.len() - i,
    {
        proof {
            assert(b@.subrange(0, i as int + 1).drop_last() =~= b@.subrange(0, i as int));
            assert(b@.subrange(0, i as int + 1).last() == b@[i as int]);
        }
        if b[i] == 58 {
            colons = colons + 1;
        }
        i = i + 1;
    }
    proof {
        assert(b@.subrange(0, b@.len() as int) =~= b@);
    }
    if colons == 0 {
        match parse_u64_field(b) {
            Some(secs) => match secs.checked_mul(1000) {
                Some(v) => v,
                None => 0,
            },
            None => 0,
        }
    } else if colons == 1 {
        let mut fc: usize = 0;
        while fc < b.len() && b[fc] != 58
            invariant
                fc <= b@.len(),
                forall|j: int| 0 <= j < fc ==> b@[j] != 58,
            decreases b@.len() - fc,
        {
            fc = fc + 1;
        }
        proof {
            lemma_find_colon_at(b@, fc as int);
        }
        let mins_part = slice_subrange(b, 0, fc);
        let secs_part = if fc < b.len() {
            slice_subrange(b, fc + 1, b.len())
        } else {
            slice_subrange(b, fc, b.len())
        };
        proof {
            assert(count_colons(b@) >= 1 ==> fc < b@.len()) by {
                if fc == b@.len() {
                    lemma_count_colons_none(b@);
                }
            }
            assert(fc < b@.len());
        }
        let mins = match parse_u64_field(mins_part) {
            Some(v) => v,
            None => 0,
        };
        let secs = match parse_u64_field(secs_part) {
            Some(v) => v,
            None => 0,
        };
        let total = match mins.checked_mul(60) {
            Some(m) => match m.checked_add(secs) {
                Some(t) => t.checked_mul(1000),
                None => None,
            },
            None => None,
        };
        match total {
            Some(v) => v,
            None => {
                proof {
                    lemma_mmss_overflow(mins, secs);
                }
                0
            },
        }
    } else {
        0
    }
}

/// A sequence without a colon counts zero colons.
proof fn lemma_count_colons_none(b: Seq<u8>)
    requires
        forall|j: int| 0 <= j < b.len() ==> b[j] != 58,
    ensures
        count_colons(b) == 0,
    decreases b.len(),
{
    if b.len() > 0 {
        assert(forall|j: int| 0 <= j < b.drop_last().len() ==> b.drop_last()[j] != 58);
        lemma_count_colons_none(b.drop_last());
    }
}

/// When any stage of `(mins * 60 + secs) * 1000` leaves the machine word,
/// so does the whole expression.
proof fn lemma_mmss_overflow(mins: u64, secs: u64)
    ensures
        mins * 60 > u64::MAX ==> (mins * 60 + secs) * 1000 > u64::MAX,
        mins * 60 + secs > u64::MAX ==> (mins * 60 + secs) * 1000 > u64::MAX,
{
    assert(mins * 60 >= 0) by (nonlinear_arith);
    assert((mins * 60 + secs) * 1000 >= mins * 60 + secs) by (nonlinear_arith);
}

} // verus!
