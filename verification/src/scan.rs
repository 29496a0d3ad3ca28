//! Scanning a timestamp string: the values of its leading runs of decimal
//! digits, read left to right.

use vstd::prelude::*;
use vstd::string::StrSliceExecFns;

verus! {

/// An ASCII decimal digit.
pub open spec fn is_digit(c: char) -> bool {
    48 <= c as u32 && c as u32 <= 57
}

/// The value of one digit character.
pub open spec fn digit_val(c: char) -> int {
    c as u32 - 48
}

/// Length of the leading run of digits.
pub open spec fn run_len(s: Seq<char>) -> nat
    decreases s.len(),
{
    if s.len() == 0 || !is_digit(s[0]) {
        0
    } else {
        (1 + run_len(s.drop_first())) as nat
    }
}

/// Numeric value of a sequence of digits, most significant first.
pub open spec fn run_value(s: Seq<char>) -> int
    decreases s.len(),
{
    if s.len() == 0 {
        0
    } else {
        run_value(s.drop_last()) * 10 + digit_val(s.last())
    }
}

proof fn lemma_run_len_bounds(s: Seq<char>)
    ensures
        run_len(s) <= s.len(),
        s.len() > 0 && is_digit(s[0]) ==> run_len(s) >= 1,
    decreases s.len(),
{
    if s.len() > 0 && is_digit(s[0]) {
        lemma_run_len_bounds(s.drop_first());
    }
}

/// The values of the maximal digit runs of a string, in order.
pub open spec fn digit_runs(s: Seq<char>) -> Seq<int>
    decreases s.len(),
    via digit_runs_decreases
{
    if s.len() == 0 {
        seq![]
    } else if !is_digit(s[0]) {
        digit_runs(s.drop_first())
    } else {
        seq![run_value(s.take(run_len(s) as int))] + digit_runs(s.skip(run_len(s) as int))
    }
}

#[via_fn]
proof fn digit_runs_decreases(s: Seq<char>) {
    lemma_run_len_bounds(s);
}

/// A value clipped to what an `i32` can hold.
pub open spec fn clamp_i32(v: int) -> int {
    if v > i32::MAX as int {
        i32::MAX as int
    } else {
        v
    }
}

/// The value of the `j`-th digit run of the string, clipped to an `i32`;
/// zero where the string has no such run.
pub open spec fn scanned_field(s: Seq<char>, j: int) -> int {
    if 0 <= j && j < digit_runs(s).len() {
        clamp_i32(digit_runs(s)[j])
    } else {
        0
    }
}

proof fn lemma_run_len_is(s: Seq<char>, j: int)
    requires
        0 <= j <= s.len(),
        forall|x: int| 0 <= x < j ==> is_digit(s[x]),
        j == s.len() || !is_digit(s[j]),
    ensures
        run_len(s) == j,
    decreases j,
{
    if j == 0 {
    } else {
        assert(is_digit(s[0]));
        let t = s.drop_first();
        assert forall|x: int| 0 <= x < j - 1 implies is_digit(t[x]) by {
            assert(t[x] == s[x + 1]);
        }
        lemma_run_len_is(t, j - 1);
    }
}

proof fn lemma_run_value_nonneg(s: Seq<char>)
    requires
        forall|x: int| 0 <= x < s.len() ==> is_digit(s[x]),
    ensures
        run_value(s) >= 0,
    decreases s.len(),
{
    if s.len() > 0 {
        assert(forall|x: int| 0 <= x < s.len() - 1 ==> s.drop_last()[x] == s[x]);
        lemma_run_value_nonneg(s.drop_last());
    }
}

fn digit_at(s: &str, i: usize) -> (b: bool)
    requires
        i < s@.len(),
    ensures
        b == is_digit(s@[i as int]),
{
    let c = s.get_char(i);
    let u: u32 = c as u32;
    48 <= u && u <= 57
}

/// The values of the first five digit runs of the string, in order, each
/// clipped to an `i32`; missing runs read as zero.
pub fn scan_fields(s: &str) -> (r: (i32, i32, i32, i32, i32))
    ensures
        r.0 as int == scanned_field(s@, 0),
        r.1 as int == scanned_field(s@, 1),
        r.2 as int == scanned_field(s@, 2),
        r.3 as int == scanned_field(s@, 3),
        r.4 as int == scanned_field(s@, 4),
        0 <= r.0 && 0 <= r.1 && 0 <= r.2 && 0 <= r.3 && 0 <= r.4,
{
    let n: usize = s.unicode_len();
    let mut i: usize = 0;
    let mut fields: Vec<i32> = Vec::new();
    proof {
        assert(s@.skip(0) =~= s@);
        assert(digit_runs(s@).skip(0) =~= digit_runs(s@));
    }
    while fields.len() < 5 && i < n
        invariant
            i <= n,
            n == s@.len(),
            fields.len() <= 5,
            fields.len() <= digit_runs(s@).len(),
            digit_runs(s@).skip(fields.len() as int) == digit_runs(s@.skip(i as int)),
            forall|j: int|
                0 <= j < fields.len() ==> fields@[j] as int == clamp_i32(digit_runs(s@)[j]),
            forall|j: int| 0 <= j < fields.len() ==> 0 <= fields@[j],
        decreases 5 - fields.len(), n - i,
    {
        // move past separators to the next digit run
        while i < n && !digit_at(s, i)
            invariant
                i <= n,
                n == s@.len(),
                digit_runs(s@).skip(fields.len() as int) == digit_runs(s@.skip(i as int)),
            decreases n - i,
        {
            proof {
                let t = s@.skip(i as int);
                assert(t[0] == s@[i as int]);
                assert(t.drop_first() =~= s@.skip(i as int + 1));
            }
            i = i + 1;
        }
        if i < n {
            // read one run of digits
            let start: usize = i;
            let ghost t = s@.skip(start as int);
            proof {
                assert(t[0] == s@[start as int]);
                assert(digit_runs(s@).skip(fields.len() as int) == digit_runs(t));
            }
            let mut acc: i64 = 0;
            while i < n && digit_at(s, i)
                invariant
                    start <= i <= n,
                    n == s@.len(),
                    forall|x: int| start <= x < i ==> is_digit(s@[x]),
                    0 <= acc <= i32::MAX,
                    acc as int == clamp_i32(run_value(s@.subrange(start as int, i as int))),
                decreases n - i,
            {
                let c = s.get_char(i);
                let d: u32 = (c as u32) - 48;
                let next: i64 = acc * 10 + (d as i64);
                proof {
                    let u = s@.subrange(start as int, i as int + 1);
                    assert(u.drop_last() =~= s@.subrange(start as int, i as int));
                    assert(u.last() == s@[i as int]);
                    assert(forall|x: int|
                        0 <= x < u.len() - 1 ==> is_digit(#[trigger] u.drop_last()[x]));
                    lemma_run_value_nonneg(u.drop_last());
                }
                acc = if next > i32::MAX as i64 {
                    i32::MAX as i64
                } else {
                    next
                };
                i = i + 1;
            }
            proof {
                assert forall|x: int| 0 <= x < i - start implies is_digit(t[x]) by {
                    assert(t[x] == s@[x + start]);
                }
                if i < n {
                    assert(t[i - start] == s@[i as int]);
                }
                lemma_run_len_is(t, i - start);
                assert(digit_runs(t) == seq![run_value(t.take(i - start))] + digit_runs(
                    t.skip(i - start),
                ));
                assert(t.take(i - start) =~= s@.subrange(start as int, i as int));
                assert(t.skip(i - start) =~= s@.skip(i as int));
                let pre = digit_runs(s@).skip(fields.len() as int);
                assert(pre.len() >= 1);
                assert(pre[0] == digit_runs(s@)[fields.len() as int]);
                assert(digit_runs(s@)[fields.len() as int] == run_value(
                    s@.subrange(start as int, i as int),
                ));
                assert(pre.skip(1) =~= digit_runs(s@).skip(fields.len() as int + 1));
                assert((seq![run_value(t.take(i - start))] + digit_runs(t.skip(i - start))).skip(1)
                    =~= digit_runs(t.skip(i - start)));
                assert(digit_runs(s@).skip(fields.len() as int + 1) == digit_runs(
                    s@.skip(i as int),
                ));
            }
            fields.push(acc as i32);
        }
    }
    proof {
        if fields.len() < 5 {
            assert(s@.skip(i as int) =~= Seq::<char>::empty());
            assert(digit_runs(s@).skip(fields.len() as int) =~= Seq::<int>::empty());
            assert(digit_runs(s@).len() == fields.len());
        }
    }
    let f0: i32 = if fields.len() > 0 { fields[0] } else { 0 };
    let f1: i32 = if fields.len() > 1 { fields[1] } else { 0 };
    let f2: i32 = if fields.len() > 2 { fields[2] } else { 0 };
    let f3: i32 = if fields.len() > 3 { fields[3] } else { 0 };
    let f4: i32 = if fields.len() > 4 { fields[4] } else { 0 };
    (f0, f1, f2, f3, f4)
}

} // verus!
