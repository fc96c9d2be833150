//! Integer core of median-trim ADC filtering: the samples are sorted in place
//! with a bubble sort and the middle entries summed,
//! discarding `trim` samples at each end.

use vstd::prelude::*;
use vstd::relations::{sorted_by, total_ordering};

verus! {

/// Sum of a sequence of ADC counts.
pub open spec fn sum_counts(s: Seq<u16>) -> int
    decreases s.len(),
{
    if s.len() == 0 {
        0
    } else {
        sum_counts(s.drop_last()) + s.last()
    }
}

/// Every entry is at most every later entry.
pub open spec fn ascending(s: Seq<u16>) -> bool {
    forall|i: int, j: int| 0 <= i < j < s.len() ==> s[i] <= s[j]
}

/// The order `<=` on ADC counts.
pub open spec fn count_le() -> spec_fn(u16, u16) -> bool {
    |a: u16, b: u16| a <= b
}

/// Platform delay hook between ADC samples; a no-op on the host, where no
/// settling time is needed.
pub fn delay_microseconds(_us: u32) {
}

proof fn lemma_swap_multiset(s: Seq<u16>, j: int)
    requires
        0 <= j,
        j + 1 < s.len(),
    ensures
        s.update(j, s[j + 1]).update(j + 1, s[j]).to_multiset() == s.to_multiset(),
{
    broadcast use vstd::seq_lib::to_multiset_update;
    broadcast use vstd::multiset::group_multiset_axioms;

    broadcast use vstd::seq_lib::group_to_multiset_ensures;

    let a = s[j + 1];
    let b = s[j];
    let m = s.to_multiset();
    let s1 = s.update(j, a);
    let s2 = s1.update(j + 1, b);
    assert(s1[j + 1] == a);
    assert(s1.to_multiset() == m.insert(a).remove(b));
    assert(s2.to_multiset() == s1.to_multiset().insert(b).remove(a));
    assert(m.count(b) > 0) by {
        assert(s.contains(b));
    }
    assert(m.count(a) > 0) by {
        assert(s.contains(a));
    }
    assert(s2.to_multiset() =~= m);
}

/// Sort `buffer[..samples]` ascending with bubble sort; entries from `samples` on
/// are left as they were.
pub fn sort_samples(buffer: &mut [u16], samples: usize)
    requires
        1 <= samples <= old(buffer)@.len(),
    ensures
        final(buffer)@.len() == old(buffer)@.len(),
        ascending(final(buffer)@.subrange(0, samples as int)),
        final(buffer)@.subrange(0, samples as int).to_multiset() == old(buffer)@.subrange(
            0,
            samples as int,
        ).to_multiset(),
        final(buffer)@.subrange(samples as int, old(buffer)@.len() as int) == old(
            buffer,
        )@.subrange(samples as int, old(buffer)@.len() as int),
{
    let ghost orig = buffer@;
    let n = samples;
    let mut i: usize = 0;
    while i < n - 1
        invariant
            n == samples,
            1 <= n <= buffer@.len(),
            buffer@.len() == orig.len(),
            i <= n - 1,
            // the last i entries of the prefix are in final position
            forall|a: int, b: int| n - i <= a < b < n ==> buffer@[a] <= buffer@[b],
            forall|a: int, b: int| 0 <= a < n - i <= b < n ==> buffer@[a] <= buffer@[b],
            buffer@.subrange(0, n as int).to_multiset() == orig.subrange(0, n as int).to_multiset(),
            forall|k: int| n <= k < buffer@.len() ==> buffer@[k] == orig[k],
        decreases n - 1 - i,
    {
        let mut j: usize = 0;
        while j < n - 1 - i
            invariant
                n == samples,
                1 <= n <= buffer@.len(),
                buffer@.len() == orig.len(),
                i < n - 1,
                j <= n - 1 - i,
                forall|a: int| 0 <= a < j ==> buffer@[a] <= buffer@[j as int],
                forall|a: int, b: int| n - i <= a < b < n ==> buffer@[a] <= buffer@[b],
                forall|a: int, b: int| 0 <= a < n - i <= b < n ==> buffer@[a] <= buffer@[b],
                buffer@.subrange(0, n as int).to_multiset() == orig.subrange(
                    0,
                    n as int,
                ).to_multiset(),
                forall|k: int| n <= k < buffer@.len() ==> buffer@[k] == orig[k],
            decreases n - 1 - i - j,
        {
            if buffer[j] > buffer[j + 1] {
                let ghost before = buffer@;
                let tmp = buffer[j];
                buffer[j] = buffer[j + 1];
                buffer[j + 1] = tmp;
                proof {
                    let p = before.subrange(0, n as int);
                    assert(buffer@.subrange(0, n as int) =~= p.update(j as int, p[j + 1]).update(
                        j + 1,
                        p[j as int],
                    ));
                    lemma_swap_multiset(p, j as int);
                }
            }
            j = j + 1;
        }
        i = i + 1;
    }
    assert(ascending(buffer@.subrange(0, n as int)));
    assert(buffer@.subrange(n as int, buffer@.len() as int) =~= orig.subrange(
        n as int,
        orig.len() as int,
    ));
}

proof fn lemma_sum_prefix_monotone(s: Seq<u16>, i: int)
    requires
        0 <= i <= s.len(),
    ensures
        sum_counts(s.subrange(0, i)) <= sum_counts(s),
    decreases s.len() - i,
{
    if i < s.len() {
        lemma_sum_prefix_monotone(s, i + 1);
        assert(s.subrange(0, i + 1).drop_last() =~= s.subrange(0, i));
    } else {
        assert(s.subrange(0, i) =~= s);
    }
}

/// Sum of `buffer[trim..samples - trim]` as a `u32`, or `None` when the sum
/// does not fit in a `u32`.
pub fn trimmed_sum(buffer: &[u16], samples: usize, trim: usize) -> (r: Option<u32>)
    requires
        samples <= buffer@.len(),
        2 * trim <= samples,
    ensures
        r is Some <==> sum_counts(buffer@.subrange(trim as int, samples - trim)) <= u32::MAX,
        r matches Some(v) ==> v == sum_counts(buffer@.subrange(trim as int, samples - trim)),
{
    let ghost mid = buffer@.subrange(trim as int, samples - trim);
    let mut sum: u32 = 0;
    let mut i: usize = trim;
    while i < samples - trim
        invariant
            samples <= buffer@.len(),
            2 * trim <= samples,
            trim <= i <= samples - trim,
            mid == buffer@.subrange(trim as int, samples - trim),
            sum == sum_counts(buffer@.subrange(trim as int, i as int)),
        decreases samples - trim - i,
    {
        proof {
            let t = buffer@.subrange(trim as int, i + 1);
            assert(t.drop_last() =~= buffer@.subrange(trim as int, i as int));
            assert(mid.subrange(0, i + 1 - trim) =~= t);
            lemma_sum_prefix_monotone(mid, i + 1 - trim);
        }
        match sum.checked_add(buffer[i] as u32) {
            Some(v) => {
                sum = v;
            },
            None => {
                return None;
            },
        }
        i = i + 1;
    }
    Some(sum)
}

/// Two sample prefixes that hold the same counts sort to the same sequence, so
/// the trimmed sum does not depend on the order in which samples arrived.
pub proof fn lemma_sorted_samples_unique(x: Seq<u16>, y: Seq<u16>)
    requires
        ascending(x),
        ascending(y),
        x.to_multiset() == y.to_multiset(),
    ensures
        x == y,
{
    let leq = count_le();
    assert(total_ordering(leq));
    assert(sorted_by(x, leq));
    assert(sorted_by(y, leq));
    vstd::seq_lib::lemma_sorted_unique(x, y, leq);
}

} // verus!
