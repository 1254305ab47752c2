//! Evaluation of one rule: every check entry in declaration order, each
//! recovered error logged and skipped, every failing check turned into a
//! failure record, and the records handed to the alert dispatcher.

use vstd::prelude::*;
use crate::alerts::{
    handle_alerts, spec_dispatches, spec_email_body, spec_fail_logs, spec_plain_body, Dispatch,
};
use crate::checker::{evaluate, spec_check_mode, spec_evaluate, parse_check_mode, DiskSpace};
use crate::log::{error, fail, info};
use crate::rules::{CheckEntry, RuleConfig};
use crate::text::{dec_str, s_append, str_eq, u64_to_string};
use crate::threshold::{parse_limit, spec_parse_limit};

verus! {

/// How one check entry came out: failed, passed, or recovered from one of
/// the three check-level errors.
#[derive(Clone, Copy, Debug, PartialEq, Eq, Structural)]
pub enum EntryStatus {
    Failed,
    Passed,
    MissingDisk,
    BadLimit,
    BadMode,
}

/// The snapshot the first pair with a matching target name carries, if any.
pub open spec fn spec_lookup_disk(snaps: Seq<(String, DiskSpace)>, name: Seq<char>) -> Option<
    DiskSpace,
>
    decreases snaps.len(),
{
    if snaps.len() == 0 {
        None
    } else if snaps[0].0@ == name {
        Some(snaps[0].1)
    } else {
        spec_lookup_disk(snaps.skip(1), name)
    }
}

/// Finds the snapshot measured for a named target.
pub fn get_disk_info(disk_mount: &String, snapshots: &Vec<(String, DiskSpace)>) -> (r: Option<
    DiskSpace,
>)
    ensures
        r == spec_lookup_disk(snapshots@, disk_mount@),
{
    let mut i: usize = 0;
    proof {
        assert(snapshots@.skip(0) =~= snapshots@);
    }
    while i < snapshots.len()
        invariant
            0 <= i <= snapshots@.len(),
            spec_lookup_disk(snapshots@, disk_mount@) == spec_lookup_disk(
                snapshots@.skip(i as int),
                disk_mount@,
            ),
        decreases snapshots@.len() - i,
    {
        proof {
            assert(snapshots@.skip(i as int)[0] == snapshots@[i as int]);
            assert(snapshots@.skip(i as int).skip(1) =~= snapshots@.skip(i + 1));
        }
        if str_eq(snapshots[i].0.as_str(), disk_mount.as_str()) {
            return Some(snapshots[i].1);
        }
        i = i + 1;
    }
    None
}

/// How one entry comes out against the snapshots: the first unrecoverable
/// step names the status, otherwise the checker decides.
pub open spec fn spec_entry_status(e: CheckEntry, snaps: Seq<(String, DiskSpace)>) -> EntryStatus {
    match spec_lookup_disk(snaps, e.disk@) {
        None => EntryStatus::MissingDisk,
        Some(d) => match spec_parse_limit(e.limit@) {
            None => EntryStatus::BadLimit,
            Some(l) => match spec_check_mode(e.option@) {
                None => EntryStatus::BadMode,
                Some(m) => if spec_evaluate(d, m, l) {
                    EntryStatus::Failed
                } else {
                    EntryStatus::Passed
                },
            },
        },
    }
}

/// Bytes as whole mebibytes for display, rounded half up.
pub open spec fn spec_round_mb(b: int) -> int {
    b / 1048576 + (if b % 1048576 >= 524288 {
        1int
    } else {
        0int
    })
}

/// Rounds a byte count to whole mebibytes for display.
pub fn round_to_mb(bytes: u64) -> (r: u64)
    ensures
        r == spec_round_mb(bytes as int),
{
    bytes / 1048576 + (if bytes % 1048576 >= 524288 {
        1
    } else {
        0
    })
}

/// The three lines a failed check is reported with.
pub open spec fn spec_failure_record(rule_name: Seq<char>, e: CheckEntry, d: DiskSpace) -> Seq<
    Seq<char>,
> {
    seq![
        "Rule '"@ + rule_name + "' failed for mount point '"@ + e.disk@ + "'"@,
        "Total/Free Space: "@ + dec_str(spec_round_mb(d.total as int) as nat) + " MB/"@ + dec_str(
            spec_round_mb(d.available as int) as nat,
        ) + " MB"@,
        "Warning Limit: "@ + e.limit@ + " "@ + e.option@,
    ]
}

/// Builds the failure record for one failed check.
fn build_failure_record(rule_name: &String, e: &CheckEntry, d: &DiskSpace) -> (r: Vec<String>)
    ensures
        r.deep_view() == spec_failure_record(rule_name@, *e, *d),
{
    let mut line1 = String::new();
    s_append(&mut line1, "Rule '");
    s_append(&mut line1, rule_name.as_str());
    s_append(&mut line1, "' failed for mount point '");
    s_append(&mut line1, e.disk.as_str());
    s_append(&mut line1, "'");
    let total_mb = u64_to_string(round_to_mb(d.total));
    let avail_mb = u64_to_string(round_to_mb(d.available));
    let mut line2 = String::new();
    s_append(&mut line2, "Total/Free Space: ");
    s_append(&mut line2, total_mb.as_str());
    s_append(&mut line2, " MB/");
    s_append(&mut line2, avail_mb.as_str());
    s_append(&mut line2, " MB");
    let mut line3 = String::new();
    s_append(&mut line3, "Warning Limit: ");
    s_append(&mut line3, e.limit.as_str());
    s_append(&mut line3, " ");
    s_append(&mut line3, e.option.as_str());
    let mut r: Vec<String> = Vec::new();
    r.push(line1);
    r.push(line2);
    r.push(line3);
    proof {
        assert(r.deep_view() =~= spec_failure_record(rule_name@, *e, *d));
    }
    r
}

/// The log line one entry earns: passes and the three recovered errors are
/// logged at once; a failure is logged later, by the dispatcher.
pub open spec fn spec_entry_log(rule_name: Seq<char>, e: CheckEntry, status: EntryStatus) -> Option<
    Seq<char>,
> {
    match status {
        EntryStatus::Failed => None,
        EntryStatus::Passed => Some(
            "INFO: "@ + "Rule '"@ + rule_name + "' Passed for mount point '"@ + e.disk@ + "'"@,
        ),
        EntryStatus::MissingDisk => Some("ERROR: "@ + "Failed"@),
        EntryStatus::BadLimit => Some("FAIL: "@ + "Failed to parse rule for disk size check"@),
        EntryStatus::BadMode => Some("FAIL: "@ + "Unknown disk check type '"@ + e.option@ + "'"@),
    }
}

/// The failure records of a rule's entries, in declaration order.
pub open spec fn spec_rule_failures(
    rule_name: Seq<char>,
    entries: Seq<CheckEntry>,
    snaps: Seq<(String, DiskSpace)>,
) -> Seq<Seq<Seq<char>>>
    decreases entries.len(),
{
    if entries.len() == 0 {
        Seq::empty()
    } else {
        let pre = spec_rule_failures(rule_name, entries.drop_last(), snaps);
        let e = entries.last();
        if spec_entry_status(e, snaps) is Failed {
            pre.push(
                spec_failure_record(rule_name, e, spec_lookup_disk(snaps, e.disk@).unwrap()),
            )
        } else {
            pre
        }
    }
}

/// The per-entry log lines of a rule, in declaration order.
pub open spec fn spec_rule_entry_logs(
    rule_name: Seq<char>,
    entries: Seq<CheckEntry>,
    snaps: Seq<(String, DiskSpace)>,
) -> Seq<Seq<char>>
    decreases entries.len(),
{
    if entries.len() == 0 {
        Seq::empty()
    } else {
        let pre = spec_rule_entry_logs(rule_name, entries.drop_last(), snaps);
        let e = entries.last();
        match spec_entry_log(rule_name, e, spec_entry_status(e, snaps)) {
            Some(line) => pre.push(line),
            None => pre,
        }
    }
}

/// Everything evaluating one rule produces: the failure records in
/// declaration order, the log lines in the order they were earned, and the
/// alert invocations owed.
pub struct RuleOutcome {
    pub failures: Vec<Vec<String>>,
    pub logs: Vec<String>,
    pub dispatches: Vec<Dispatch>,
}

/// The whole contract of evaluating one disk rule.
pub open spec fn spec_disk_rule_outcome(
    r: RuleOutcome,
    rule: RuleConfig,
    snaps: Seq<(String, DiskSpace)>,
) -> bool {
    let fails = spec_rule_failures(rule.name@, rule.rules@, snaps);
    &&& r.failures.deep_view() == fails
    &&& r.logs.deep_view() == seq!["INFO: "@ + "Running Rule: "@ + rule.name@]
        + spec_rule_entry_logs(rule.name@, rule.rules@, snaps) + (if fails.len() > 0 {
        spec_fail_logs(fails)
    } else {
        Seq::empty()
    })
    &&& fails.len() == 0 ==> r.dispatches@.len() == 0
    &&& fails.len() > 0 ==> r.dispatches@.map_values(|d: Dispatch| d@) == spec_dispatches(
        rule.alerts@,
        rule.name@,
        spec_email_body(fails),
        spec_plain_body(fails),
    )
}

/// Evaluates one disk rule: every entry in declaration order against the
/// measured snapshots, recovered errors logged and skipped, and, exactly
/// when at least one check failed, the alert dispatcher's invocations.
pub fn handle_disk_check(rule_details: &RuleConfig, snapshots: &Vec<(String, DiskSpace)>) -> (r:
    RuleOutcome)
    ensures
        spec_disk_rule_outcome(r, *rule_details, snapshots@),
{
    let rule_name = &rule_details.name;
    let mut logs: Vec<String> = Vec::new();
    logs.push(running_line(rule_name));
    let mut failures: Vec<Vec<String>> = Vec::new();
    let ghost entries = rule_details.rules@;
    let ghost snaps = snapshots@;
    let mut i: usize = 0;
    proof {
        assert(entries.take(0) =~= Seq::<CheckEntry>::empty());
        assert(logs.deep_view() =~= seq!["INFO: "@ + "Running Rule: "@ + rule_details.name@]);
    }
    while i < rule_details.rules.len()
        invariant
            0 <= i <= entries.len(),
            entries == rule_details.rules@,
            snaps == snapshots@,
            rule_name@ == rule_details.name@,
            failures.deep_view() =~= spec_rule_failures(rule_details.name@, entries.take(i as int), snaps),
            logs.deep_view() =~= seq!["INFO: "@ + "Running Rule: "@ + rule_details.name@]
                + spec_rule_entry_logs(rule_details.name@, entries.take(i as int), snaps),
        decreases entries.len() - i,
    {
        let entry = &rule_details.rules[i];
        proof {
            assert(*entry == entries[i as int]);
        }
        let ghost old_failures = failures.deep_view();
        let ghost old_logs = logs.deep_view();
        proof {
            assert(entries.take(i + 1).drop_last() =~= entries.take(i as int));
            assert(entries.take(i + 1).last() == entries[i as int]);
        }
        match get_disk_info(&entry.disk, snapshots) {
            None => {
                logs.push(error("Failed"));
                proof {
                    assert(logs.deep_view() =~= old_logs.push("ERROR: "@ + "Failed"@));
                }
            },
            Some(d) => {
                match parse_limit(&entry.limit) {
                    None => {
                        logs.push(fail("Failed to parse rule for disk size check"));
                        proof {
                            assert(logs.deep_view() =~= old_logs.push(
                                "FAIL: "@ + "Failed to parse rule for disk size check"@,
                            ));
                        }
                    },
                    Some(l) => {
                        match parse_check_mode(&entry.option) {
                            None => {
                                logs.push(bad_mode_line(&entry.option));
                                proof {
                                    assert(logs.deep_view() =~= old_logs.push(
                                        "FAIL: "@ + "Unknown disk check type '"@ + entries[i as int].option@
                                            + "'"@,
                                    ));
                                }
                            },
                            Some(mode) => {
                                if evaluate(&d, mode, &l) {
                                    let rec = build_failure_record(rule_name, entry, &d);
                                    proof {
                                        assert(rec.deep_view() == spec_failure_record(
                                            rule_details.name@,
                                            entries[i as int],
                                            d,
                                        ));
                                    }
                                    failures.push(rec);
                                    proof {
                                        assert(failures.deep_view() =~= old_failures.push(
                                            spec_failure_record(
                                                rule_details.name@,
                                                entries[i as int],
                                                d,
                                            ),
                                        ));
                                    }
                                } else {
                                    logs.push(passed_line(rule_name, &entry.disk));
                                    proof {
                                        assert(logs.deep_view() =~= old_logs.push(
                                            "INFO: "@ + "Rule '"@ + rule_details.name@
                                                + "' Passed for mount point '"@
                                                + entries[i as int].disk@ + "'"@,
                                        ));
                                    }
                                }
                            },
                        }
                    },
                }
            },
        }
        proof {
            assert(failures.deep_view() =~= spec_rule_failures(
                rule_details.name@,
                entries.take(i + 1),
                snaps,
            ));
            assert(logs.deep_view() =~= seq!["INFO: "@ + "Running Rule: "@ + rule_details.name@]
                + spec_rule_entry_logs(rule_details.name@, entries.take(i + 1), snaps));
        }
        i = i + 1;
    }
    proof {
        assert(entries.take(entries.len() as int) =~= entries);
    }
    if failures.len() > 0 {
        let ghost fdv = failures.deep_view();
        let records = failures.clone();
        proof {
            assert(records.deep_view() == fdv);
        }
        let alert_outcome = handle_alerts(records, rule_name, &rule_details.alerts);
        let fail_logs = alert_outcome.logs;
        let ghost base_logs = logs.deep_view();
        let mut j: usize = 0;
        while j < fail_logs.len()
            invariant
                0 <= j <= fail_logs@.len(),
                fail_logs.deep_view() == spec_fail_logs(fdv),
                logs.deep_view() =~= base_logs + fail_logs.deep_view().take(j as int),
            decreases fail_logs@.len() - j,
        {
            logs.push(fail_logs[j].clone());
            proof {
                let fdvl = fail_logs.deep_view();
                assert(fdvl[j as int] == fail_logs@[j as int]@);
                assert(fdvl.take(j + 1) =~= fdvl.take(j as int).push(fdvl[j as int]));
                assert(logs.deep_view() =~= (base_logs + fdvl.take(j as int)).push(
                    fdvl[j as int],
                ));
                assert(logs.deep_view() =~= base_logs + fdvl.take(j + 1));
            }
            j = j + 1;
        }
        proof {
            assert(fail_logs.deep_view().take(fail_logs@.len() as int) =~= fail_logs.deep_view());
        }
        RuleOutcome { failures, logs, dispatches: alert_outcome.dispatches }
    } else {
        RuleOutcome { failures, logs, dispatches: Vec::new() }
    }
}

/// Runs the checks a rule declares, by its resource family. The disk
/// family is the one implemented; a rule of any other family performs no
/// checks, dispatches nothing, and leaves one error log line.
pub fn exec_rule_check(rule: &RuleConfig, snapshots: &Vec<(String, DiskSpace)>) -> (r: RuleOutcome)
    ensures
        rule.rule_type@ == "disk"@ ==> spec_disk_rule_outcome(r, *rule, snapshots@),
        rule.rule_type@ != "disk"@ ==> {
            &&& r.failures@.len() == 0
            &&& r.dispatches@.len() == 0
            &&& r.logs.deep_view() == seq![
                "ERROR: "@ + "Unknown rule type '"@ + rule.rule_type@ + "'"@,
            ]
        },
{
    if str_eq(rule.rule_type.as_str(), "disk") {
        handle_disk_check(rule, snapshots)
    } else {
        let mut m = String::from_str("Unknown rule type '");
        s_append(&mut m, rule.rule_type.as_str());
        s_append(&mut m, "'");
        let line = error(m.as_str());
        proof {
            assert(line@ =~= "ERROR: "@ + "Unknown rule type '"@ + rule.rule_type@ + "'"@);
        }
        let mut logs: Vec<String> = Vec::new();
        logs.push(line);
        proof {
            assert(logs.deep_view() =~= seq![
                "ERROR: "@ + "Unknown rule type '"@ + rule.rule_type@ + "'"@,
            ]);
        }
        RuleOutcome { failures: Vec::new(), logs, dispatches: Vec::new() }
    }
}

fn passed_line(rule_name: &String, disk: &String) -> (r: String)
    ensures
        r@ == "INFO: "@ + "Rule '"@ + rule_name@ + "' Passed for mount point '"@ + disk@ + "'"@,
{
    let mut m = String::from_str("Rule '");
    s_append(&mut m, rule_name.as_str());
    s_append(&mut m, "' Passed for mount point '");
    s_append(&mut m, disk.as_str());
    s_append(&mut m, "'");
    let r = info(m.as_str());
    proof {
        assert(r@ =~= "INFO: "@ + "Rule '"@ + rule_name@ + "' Passed for mount point '"@ + disk@
            + "'"@);
    }
    r
}

fn bad_mode_line(option: &String) -> (r: String)
    ensures
        r@ == "FAIL: "@ + "Unknown disk check type '"@ + option@ + "'"@,
{
    let mut m = String::from_str("Unknown disk check type '");
    s_append(&mut m, option.as_str());
    s_append(&mut m, "'");
    let r = fail(m.as_str());
    proof {
        assert(r@ =~= "FAIL: "@ + "Unknown disk check type '"@ + option@ + "'"@);
    }
    r
}

fn running_line(rule_name: &String) -> (r: String)
    ensures
        r@ == "INFO: "@ + "Running Rule: "@ + rule_name@,
{
    let mut m = String::from_str("Running Rule: ");
    s_append(&mut m, rule_name.as_str());
    let r = info(m.as_str());
    proof {
        assert(r@ =~= "INFO: "@ + "Running Rule: "@ + rule_name@);
    }
    r
}

} // verus!
