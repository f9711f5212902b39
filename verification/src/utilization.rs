//! Partitioning of per-core usage percentages into performance and
//! efficiency cores, and the overall average.
//!
//! Usage is carried in hundredths of a percent. By platform convention the
//! efficiency cores enumerate first: the first `e_core_count` entries are
//! efficiency cores, the rest performance cores.

use vstd::prelude::*;

verus! {

/// Per-core usage split of one sampling round, in hundredths of a percent.
#[derive(Clone, Debug)]
pub struct UtilizationReport {
    pub p_core_cpct: Vec<u32>,
    pub e_core_cpct: Vec<u32>,
    pub overall_cpct: u32,
}

/// Sum of per-core usages.
pub open spec fn usage_sum(s: Seq<u32>) -> int
    decreases s.len(),
{
    if s.len() == 0 {
        0
    } else {
        usage_sum(s.drop_last()) + s.last()
    }
}

/// The boundary between efficiency and performance cores: the configured
/// efficiency count, bounded by how many cores were observed.
pub open spec fn spec_split_point(len: int, e_core_count: int) -> int {
    if e_core_count <= len {
        e_core_count
    } else {
        len
    }
}

/// The overall usage: the truncating average over all cores, zero when no
/// core was observed.
pub open spec fn spec_overall(s: Seq<u32>) -> int {
    if s.len() == 0 {
        0
    } else {
        usage_sum(s) / s.len() as int
    }
}

/// Partition one round of per-core usages by the topology's efficiency
/// count and average them. Never fails: absent data yields empty arrays and
/// a zero overall.
pub fn split_core_utilization(usages_cpct: &Vec<u32>, e_core_count: usize) -> (r:
    UtilizationReport)
    ensures
        r.e_core_cpct@ == usages_cpct@.subrange(
            0,
            spec_split_point(usages_cpct@.len() as int, e_core_count as int),
        ),
        r.p_core_cpct@ == usages_cpct@.subrange(
            spec_split_point(usages_cpct@.len() as int, e_core_count as int),
            usages_cpct@.len() as int,
        ),
        r.overall_cpct == spec_overall(usages_cpct@),
{
    let n: usize = usages_cpct.len();
    let split: usize = if e_core_count <= n {
        e_core_count
    } else {
        n
    };
    let mut e_cores: Vec<u32> = Vec::new();
    let mut p_cores: Vec<u32> = Vec::new();
    let mut sum: u128 = 0;
    let mut i: usize = 0;
    while i < n
        invariant
            i <= n,
            n == usages_cpct@.len(),
            split == spec_split_point(n as int, e_core_count as int),
            split <= n,
            e_cores@ =~= usages_cpct@.subrange(0, vstd::math::min(i as int, split as int)),
            p_cores@ =~= if i > split {
                usages_cpct@.subrange(split as int, i as int)
            } else {
                Seq::<u32>::empty()
            },
            sum == usage_sum(usages_cpct@.subrange(0, i as int)),
            sum <= i * 0x1_0000_0000,
        decreases n - i,
    {
        proof {
            assert(usages_cpct@.subrange(0, i + 1).drop_last() =~= usages_cpct@.subrange(
                0,
                i as int,
            ));
            assert(usages_cpct@.subrange(0, i + 1).last() == usages_cpct@[i as int]);
        }
        let u: u32 = usages_cpct[i];
        sum = sum + u as u128;
        if i < split {
            e_cores.push(u);
        } else {
            p_cores.push(u);
            proof {
                assert(p_cores@ =~= usages_cpct@.subrange(split as int, i + 1));
            }
        }
        i = i + 1;
    }
    proof {
        assert(usages_cpct@.subrange(0, n as int) =~= usages_cpct@);
        assert(e_cores@ =~= usages_cpct@.subrange(0, split as int));
        if n == split {
            assert(p_cores@ =~= usages_cpct@.subrange(split as int, n as int));
        }
    }
    let overall: u32 = if n > 0 {
        proof {
            lemma_usage_sum_nonneg(usages_cpct@);
            assert((usage_sum(usages_cpct@) / (usages_cpct@.len() as int)) < 0x1_0000_0000)
                by (nonlinear_arith)
                requires
                    usages_cpct@.len() > 0,
                    0 <= usage_sum(usages_cpct@) <= usages_cpct@.len() * 0x1_0000_0000,
                    usage_sum(usages_cpct@) < usages_cpct@.len() * 0x1_0000_0000,
            ;
        }
        (sum / n as u128) as u32
    } else {
        0
    };
    UtilizationReport { p_core_cpct: p_cores, e_core_cpct: e_cores, overall_cpct: overall }
}

/// A usage sum is nonnegative and below its length times two to the
/// thirty-second.
proof fn lemma_usage_sum_nonneg(s: Seq<u32>)
    ensures
        0 <= usage_sum(s),
        usage_sum(s) <= s.len() * 0xffff_ffff,
        s.len() > 0 ==> usage_sum(s) < s.len() * 0x1_0000_0000,
    decreases s.len(),
{
    if s.len() > 0 {
        lemma_usage_sum_nonneg(s.drop_last());
        assert(s.len() * 0xffff_ffff == (s.len() - 1) * 0xffff_ffff + 0xffff_ffff)
            by (nonlinear_arith);
        assert(s.len() * 0x1_0000_0000 == (s.len() - 1) * 0x1_0000_0000 + 0x1_0000_0000)
            by (nonlinear_arith);
    }
}

} // verus!
