use vstd::prelude::*;
use vstd::arithmetic::div_mod::{lemma_div_is_ordered, lemma_div_multiples_vanish};

verus! {

/// One observation of host resource usage.
///
/// CPU utilisation is held per logical core in hundredths of a percent
/// (0 .. 10_000 stands for 0 .. 100 %); memory and disk figures are in
/// bytes, the disk figures aggregated over all mounted volumes.
#[derive(Debug)]
pub struct SystemSnapshot {
    pub cpu_usages: Vec<u64>,
    pub total_memory: u64,
    pub used_memory: u64,
    pub total_disk: u64,
    pub used_disk: u64,
}

impl Default for SystemSnapshot {
    fn default() -> (s: SystemSnapshot)
        ensures
            s.cpu_usages@.len() == 0,
            s.total_memory == 0,
            s.used_memory == 0,
            s.total_disk == 0,
            s.used_disk == 0,
    {
        SystemSnapshot {
            cpu_usages: Vec::new(),
            total_memory: 0,
            used_memory: 0,
            total_disk: 0,
            used_disk: 0,
        }
    }
}

impl Clone for SystemSnapshot {
    fn clone(&self) -> (r: SystemSnapshot)
        ensures
            r.cpu_usages@ == self.cpu_usages@,
            r.total_memory == self.total_memory,
            r.used_memory == self.used_memory,
            r.total_disk == self.total_disk,
            r.used_disk == self.used_disk,
    {
        let cpu = self.cpu_usages.clone();
        proof {
            assert(cpu@ =~= self.cpu_usages@);
        }
        SystemSnapshot {
            cpu_usages: cpu,
            total_memory: self.total_memory,
            used_memory: self.used_memory,
            total_disk: self.total_disk,
            used_disk: self.used_disk,
        }
    }
}

/// Sum of a sequence of per-core values.
pub open spec fn sum_of(s: Seq<u64>) -> int
    decreases s.len(),
{
    if s.len() == 0 {
        0
    } else {
        sum_of(s.drop_last()) + s.last()
    }
}

/// The scalar derived from one resource snapshot: the arithmetic mean of
/// the per-core CPU values, and exactly 0 when there are no values.
pub open spec fn mean_of(s: Seq<u64>) -> int {
    if s.len() == 0 {
        0
    } else {
        sum_of(s) / (s.len() as int)
    }
}

proof fn lemma_sum_of_bounds(s: Seq<u64>)
    ensures
        0 <= sum_of(s) <= s.len() * (u64::MAX as int),
    decreases s.len(),
{
    if s.len() > 0 {
        lemma_sum_of_bounds(s.drop_last());
    }
}

/// Mean of the per-core CPU values of one snapshot, in the same unit as
/// the values themselves; 0 for an empty sequence, with no division there.
pub fn cpu_mean(v: &Vec<u64>) -> (r: u64)
    ensures
        r == mean_of(v@),
{
    let n: usize = v.len();
    if n == 0 {
        return 0;
    }
    let mut sum: u128 = 0;
    let mut i: usize = 0;
    while i < n
        invariant
            n == v@.len(),
            i <= n,
            sum == sum_of(v@.take(i as int)),
            sum <= (i as int) * (u64::MAX as int),
        decreases n - i,
    {
        proof {
            assert(v@.take(i + 1).drop_last() =~= v@.take(i as int));
            assert(v@.take(i + 1).last() == v@[i as int]);
        }
        sum = sum + v[i] as u128;
        i = i + 1;
    }
    proof {
        assert(v@.take(n as int) =~= v@);
        lemma_sum_of_bounds(v@);
        lemma_div_is_ordered(sum as int, v@.len() * (u64::MAX as int), v@.len() as int);
        lemma_div_multiples_vanish(u64::MAX as int, v@.len() as int);
    }
    (sum / (n as u128)) as u64
}

/// Share of a resource in use, in thousandths, clamped to 0 ..= 1000.
/// A total of 0 reports 0 rather than failing on the division.
pub open spec fn ratio_permille(used: u64, total: u64) -> int {
    if total == 0 {
        0
    } else if (used as int * 1000) / (total as int) > 1000 {
        1000
    } else {
        (used as int * 1000) / (total as int)
    }
}

/// Usage share of a resource in thousandths: `used` of `total` bytes,
/// 0 when `total` is 0, and clamped to at most 1000 even if `used`
/// exceeds `total`.
pub fn usage_permille(used: u64, total: u64) -> (r: u64)
    ensures
        r == ratio_permille(used, total),
        r <= 1000,
        total == 0 ==> r == 0,
{
    if total == 0 {
        return 0;
    }
    let q: u128 = (used as u128) * 1000 / (total as u128);
    if q > 1000 {
        1000
    } else {
        q as u64
    }
}

/// Saturating sum on the byte scale: adding past `u64::MAX` stays there.
pub open spec fn sat_add_u64(a: int, b: int) -> int {
    if a + b > u64::MAX as int {
        u64::MAX as int
    } else {
        a + b
    }
}

/// Bytes in use on one volume: total minus available, and 0 if the
/// reported available space exceeds the reported total.
pub open spec fn used_space(total: u64, avail: u64) -> int {
    if avail <= total {
        total - avail
    } else {
        0
    }
}

/// Total capacity over a set of volumes, saturating at `u64::MAX`.
pub open spec fn total_of(t: Seq<u64>) -> int
    decreases t.len(),
{
    if t.len() == 0 {
        0
    } else {
        sat_add_u64(total_of(t.drop_last()), t.last() as int)
    }
}

/// Bytes in use over a set of volumes, saturating at `u64::MAX`.
pub open spec fn used_of(t: Seq<u64>, a: Seq<u64>) -> int
    recommends
        t.len() == a.len(),
    decreases t.len(),
{
    if t.len() == 0 {
        0
    } else {
        sat_add_u64(used_of(t.drop_last(), a.drop_last()), used_space(t.last(), a.last()))
    }
}

fn sat_add(a: u64, b: u64) -> (r: u64)
    ensures
        r == sat_add_u64(a as int, b as int),
{
    if a > u64::MAX - b {
        u64::MAX
    } else {
        a + b
    }
}

/// Aggregate the per-volume capacity and availability figures into the
/// (total, used) pair of one snapshot. Both sums saturate at `u64::MAX`,
/// and a volume whose available space exceeds its capacity counts as
/// fully free.
pub fn aggregate_disks(totals: &Vec<u64>, availables: &Vec<u64>) -> (r: (u64, u64))
    requires
        totals@.len() == availables@.len(),
    ensures
        r.0 == total_of(totals@),
        r.1 == used_of(totals@, availables@),
{
    let n: usize = totals.len();
    let mut total: u64 = 0;
    let mut used: u64 = 0;
    let mut i: usize = 0;
    while i < n
        invariant
            n == totals@.len(),
            n == availables@.len(),
            i <= n,
            total == total_of(totals@.take(i as int)),
            used == used_of(totals@.take(i as int), availables@.take(i as int)),
        decreases n - i,
    {
        proof {
            assert(totals@.take(i + 1).drop_last() =~= totals@.take(i as int));
            assert(availables@.take(i + 1).drop_last() =~= availables@.take(i as int));
        }
        total = sat_add(total, totals[i]);
        let avail: u64 = availables[i];
        let cap: u64 = totals[i];
        let vol_used: u64 = if avail <= cap {
            cap - avail
        } else {
            0
        };
        used = sat_add(used, vol_used);
        i = i + 1;
    }
    proof {
        assert(totals@.take(n as int) =~= totals@);
        assert(availables@.take(n as int) =~= availables@);
    }
    (total, used)
}

} // verus!
