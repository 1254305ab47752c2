//! The pass/fail decision for one check: a measured snapshot against a
//! parsed limit, under one of the two check modes.
//!
//! A limit stands for an exact number of bytes: `amount/100` of the target's
//! total capacity for a percentage, or `amount` times the unit's
//! power-of-1024 multiplier for a byte-size unit. With the amount kept as
//! the rational `amount_num / amount_den`, the threshold is the rational
//! `threshold_num / threshold_den` below, and every comparison is done
//! exactly, cross-multiplied in 128-bit integers.

use vstd::prelude::*;
use crate::threshold::{Limit, LimitUnit, spec_parse_limit, parse_limit};
use crate::units::{pow1024, unit_exp, bytes_per_unit};
use crate::text::str_eq;

verus! {

/// A point-in-time measurement of one target: how many bytes it holds in
/// all and how many are still free. Free capacity never exceeds the total
/// on a sane measurement; the checker does not demand it and treats an
/// oversized `available` as zero use.
#[derive(Clone, Copy, Debug, PartialEq, Eq, Structural)]
pub struct DiskSpace {
    pub total: u64,
    pub available: u64,
}

/// What a check watches: the free space remaining, or the used space
/// consumed.
#[derive(Clone, Copy, Debug, PartialEq, Eq, Structural)]
pub enum CheckMode {
    FreeRemaining,
    UsedConsumed,
}

/// Numerator of the limit's threshold in bytes, given the target's total.
pub open spec fn threshold_num(l: Limit, total: int) -> int {
    match l.unit {
        LimitUnit::Percent => l.amount_num * total,
        LimitUnit::Size(u) => l.amount_num * pow1024(unit_exp(u)),
    }
}

/// Denominator of the limit's threshold in bytes.
pub open spec fn threshold_den(l: Limit) -> int {
    match l.unit {
        LimitUnit::Percent => 100 * l.amount_den,
        LimitUnit::Size(_) => l.amount_den as int,
    }
}

/// The free-space check fails when the threshold exceeds what is available:
/// `tnum/tden > available`.
pub open spec fn free_fails_at(available: int, tnum: int, tden: int) -> bool {
    tnum > available * tden
}

proof fn lemma_threshold_parts(l: Limit, total: int)
    requires
        l.wf(),
        total >= 0,
    ensures
        threshold_num(l, total) >= 0,
        threshold_den(l) >= 1,
{
    match l.unit {
        LimitUnit::Percent => {
            assert(l.amount_num * total >= 0) by (nonlinear_arith)
                requires
                    l.amount_num >= 0 && total >= 0,
            ;
        },
        LimitUnit::Size(u) => {
            crate::units::lemma_pow1024_pos(unit_exp(u));
            assert(l.amount_num * pow1024(unit_exp(u)) >= 0) by (nonlinear_arith)
                requires
                    l.amount_num >= 0 && pow1024(unit_exp(u)) >= 1,
            ;
        },
    }
}

/// The used-space check fails when more is used than the threshold:
/// `total - available > tnum/tden`.
pub open spec fn used_fails_at(total: int, available: int, tnum: int, tden: int) -> bool {
    (total - available) * tden > tnum
}

/// Whether the free-space check fails for a snapshot.
pub open spec fn spec_free_check(total: int, available: int, l: Limit) -> bool {
    free_fails_at(available, threshold_num(l, total), threshold_den(l))
}

/// Whether the used-space check fails for a snapshot.
pub open spec fn spec_used_check(total: int, available: int, l: Limit) -> bool {
    used_fails_at(total, available, threshold_num(l, total), threshold_den(l))
}

/// Decides the free-space check: true means the check fails, the configured
/// minimum free space undershoots what is actually available. Ties pass.
pub fn free_check(limit: &Limit, disk: &DiskSpace) -> (r: bool)
    requires
        limit.wf(),
    ensures
        r == spec_free_check(disk.total as int, disk.available as int, *limit),
{
    let t = disk.total as u128;
    let a = disk.available as u128;
    let num = limit.amount_num as u128;
    let den = limit.amount_den as u128;
    proof {
        assert(num * t <= 1000000000000000u128 * 0xFFFF_FFFF_FFFF_FFFFu128) by (nonlinear_arith)
            requires
                num <= 1000000000000000u128 && t <= 0xFFFF_FFFF_FFFF_FFFFu128,
        ;
        assert(a * (100 * den) <= 0xFFFF_FFFF_FFFF_FFFFu128 * 100000000000000000u128)
            by (nonlinear_arith)
            requires
                den <= 1000000000000000u128 && a <= 0xFFFF_FFFF_FFFF_FFFFu128,
        ;
        assert(a * den <= 0xFFFF_FFFF_FFFF_FFFFu128 * 1000000000000000u128) by (nonlinear_arith)
            requires
                den <= 1000000000000000u128 && a <= 0xFFFF_FFFF_FFFF_FFFFu128,
        ;
    }
    match limit.unit {
        LimitUnit::Percent => num * t > a * (100 * den),
        LimitUnit::Size(u) => {
            let mult = bytes_per_unit(u) as u128;
            proof {
                assert(num * mult <= 1000000000000000u128 * 1099511627776u128)
                    by (nonlinear_arith)
                    requires
                        num <= 1000000000000000u128 && mult <= 1099511627776u128,
                ;
            }
            num * mult > a * den
        },
    }
}

/// Decides the used-space check: true means the check fails, more space is
/// consumed than the configured limit. Ties pass.
pub fn used_check(limit: &Limit, disk: &DiskSpace) -> (r: bool)
    requires
        limit.wf(),
    ensures
        r == spec_used_check(disk.total as int, disk.available as int, *limit),
{
    if disk.available >= disk.total {
        proof {
            lemma_threshold_parts(*limit, disk.total as int);
            let tden = threshold_den(*limit);
            assert((disk.total as int - disk.available as int) * tden <= 0) by (nonlinear_arith)
                requires
                    disk.total as int - disk.available as int <= 0 && tden >= 1,
            ;
        }
        return false;
    }
    let used = (disk.total - disk.available) as u128;
    let num = limit.amount_num as u128;
    let den = limit.amount_den as u128;
    proof {
        assert(num * (disk.total as u128) <= 1000000000000000u128 * 0xFFFF_FFFF_FFFF_FFFFu128)
            by (nonlinear_arith)
            requires
                num <= 1000000000000000u128 && disk.total as u128 <= 0xFFFF_FFFF_FFFF_FFFFu128,
        ;
        assert(used * (100 * den) <= 0xFFFF_FFFF_FFFF_FFFFu128 * 100000000000000000u128)
            by (nonlinear_arith)
            requires
                den <= 1000000000000000u128 && used <= 0xFFFF_FFFF_FFFF_FFFFu128,
        ;
        assert(used * den <= 0xFFFF_FFFF_FFFF_FFFFu128 * 1000000000000000u128)
            by (nonlinear_arith)
            requires
                den <= 1000000000000000u128 && used <= 0xFFFF_FFFF_FFFF_FFFFu128,
        ;
    }
    match limit.unit {
        LimitUnit::Percent => used * (100 * den) > num * (disk.total as u128),
        LimitUnit::Size(u) => {
            let mult = bytes_per_unit(u) as u128;
            proof {
                assert(num * mult <= 1000000000000000u128 * 1099511627776u128)
                    by (nonlinear_arith)
                    requires
                        num <= 1000000000000000u128 && mult <= 1099511627776u128,
                ;
            }
            used * den > num * mult
        },
    }
}

/// Decides one mode against one snapshot and one parsed limit: true means
/// the check fails.
pub open spec fn spec_evaluate(disk: DiskSpace, mode: CheckMode, l: Limit) -> bool {
    match mode {
        CheckMode::FreeRemaining => spec_free_check(disk.total as int, disk.available as int, l),
        CheckMode::UsedConsumed => spec_used_check(disk.total as int, disk.available as int, l),
    }
}

/// Evaluates one check mode against a snapshot and a parsed limit.
pub fn evaluate(disk: &DiskSpace, mode: CheckMode, limit: &Limit) -> (r: bool)
    requires
        limit.wf(),
    ensures
        r == spec_evaluate(*disk, mode, *limit),
{
    match mode {
        CheckMode::FreeRemaining => free_check(limit, disk),
        CheckMode::UsedConsumed => used_check(limit, disk),
    }
}

/// The check mode a configured mode string selects, if any.
pub open spec fn spec_check_mode(s: Seq<char>) -> Option<CheckMode> {
    if s == "free"@ {
        Some(CheckMode::FreeRemaining)
    } else if s == "used"@ {
        Some(CheckMode::UsedConsumed)
    } else {
        None
    }
}

/// Parses a mode string: `"free"` or `"used"`.
pub fn parse_check_mode(option: &String) -> (r: Option<CheckMode>)
    ensures
        r == spec_check_mode(option@),
{
    if str_eq(option.as_str(), "free") {
        Some(CheckMode::FreeRemaining)
    } else if str_eq(option.as_str(), "used") {
        Some(CheckMode::UsedConsumed)
    } else {
        None
    }
}

/// The whole decision for one check entry: an unparseable limit or an
/// unrecognized mode string never fails the check, it is recovered and the
/// rule goes on; a recognized pair fails exactly when the mode's comparison
/// says so.
pub open spec fn spec_check_space(option: Seq<char>, disk: DiskSpace, limit: Seq<char>) -> bool {
    match spec_parse_limit(limit) {
        None => false,
        Some(l) => match spec_check_mode(option) {
            None => false,
            Some(m) => spec_evaluate(disk, m, l),
        },
    }
}

/// Decides one configured check entry from its raw strings: true means the
/// check fails and the rule collects a failure record.
pub fn check_space(option: &String, disk: &DiskSpace, limit: &String) -> (r: bool)
    ensures
        r == spec_check_space(option@, *disk, limit@),
{
    match parse_limit(limit) {
        Some(l) => match parse_check_mode(option) {
            Some(m) => evaluate(disk, m, &l),
            None => false,
        },
        None => false,
    }
}

/// On a fully free disk the free-space check never fails: not for any
/// percentage of at most one hundred, nor for any absolute threshold of at
/// most the total capacity.
pub proof fn lemma_free_check_fully_free(total: u64, l: Limit)
    requires
        l.wf(),
        match l.unit {
            LimitUnit::Percent => l.amount_num <= 100 * l.amount_den,
            LimitUnit::Size(u) => l.amount_num * pow1024(unit_exp(u)) <= total * l.amount_den,
        },
    ensures
        !spec_free_check(total as int, total as int, l),
{
    match l.unit {
        LimitUnit::Percent => {
            assert(l.amount_num * total <= total as int * (100 * l.amount_den))
                by (nonlinear_arith)
                requires
                    l.amount_num <= 100 * l.amount_den && total >= 0,
            ;
        },
        LimitUnit::Size(u) => {
            assert(!spec_free_check(total as int, total as int, l));
        },
    }
}

/// The used-space check is the free-space check at the complementary
/// threshold: used space exceeds `tnum/tden` exactly when free space
/// undershoots `total - tnum/tden`. On the boundary, used space equal to
/// the threshold, both checks pass.
pub proof fn lemma_used_is_free_complement(total: int, available: int, tnum: int, tden: int)
    requires
        tden >= 1,
    ensures
        used_fails_at(total, available, tnum, tden) == free_fails_at(
            available,
            total * tden - tnum,
            tden,
        ),
        (total - available) * tden == tnum ==> !used_fails_at(total, available, tnum, tden)
            && !free_fails_at(available, total * tden - tnum, tden),
{
    assert((total - available) * tden == total * tden - available * tden) by (nonlinear_arith);
}

/// The complement law on two percentage limits over a common denominator:
/// where the configured percentages add up to one hundred, the used-space
/// check fails exactly where the free-space check does, and when the
/// measured use sits exactly on the limit both modes pass.
pub proof fn lemma_percent_complement(total: int, available: int, lf: Limit, lu: Limit)
    requires
        lf.unit == LimitUnit::Percent,
        lu.unit == LimitUnit::Percent,
        lu.amount_den == lf.amount_den,
        lf.amount_den >= 1,
        lf.amount_num + lu.amount_num == 100 * lf.amount_den,
        0 <= available <= total,
    ensures
        spec_used_check(total, available, lu) == spec_free_check(total, available, lf),
        lf.amount_num * total == available * (100 * lf.amount_den) ==> !spec_free_check(
            total,
            available,
            lf,
        ) && !spec_used_check(total, available, lu),
{
    assert(((total - available) * (100 * lu.amount_den as int) > lu.amount_num * total) == (
    lf.amount_num * total > available * (100 * lf.amount_den as int))) by (nonlinear_arith)
        requires
            lu.amount_den == lf.amount_den,
            lf.amount_den >= 1,
            lf.amount_num + lu.amount_num == 100 * lf.amount_den,
            0 <= available <= total,
    ;
}

} // verus!
