use eekwatch::alerts::{compose_email, handle_alerts, Dispatch};
use eekwatch::checker::{check_space, evaluate, free_check, used_check, CheckMode, DiskSpace};
use eekwatch::config::{AlertEmailConf, AlertLoggingConf, AlertsConf, Config, RulesConf};
use eekwatch::evaluator::{exec_rule_check, get_disk_info, handle_disk_check, round_to_mb};
use eekwatch::log::{error, fail, info, warn};
use eekwatch::rules::{Alert, CheckEntry, RuleConfig};
use eekwatch::text::{join_strings, u64_to_string};
use eekwatch::threshold::{parse_limit, Limit, LimitUnit};
use eekwatch::units::{bytes_per_unit, size_conversion, ByteUnit};

#[test]
fn test_parse_limit() {
    // Check size indicator
    let limit = "200 MB".to_string();
    let limit_parsed = parse_limit(&limit).unwrap();
    assert_eq!(limit_parsed.amount_num, 200);
    assert_eq!(limit_parsed.amount_den, 1);
    assert_eq!(limit_parsed.unit, LimitUnit::Size(ByteUnit::MB));

    // Check percentage
    let limit = "20%".to_string();
    let limit_parsed = parse_limit(&limit).unwrap();
    assert_eq!(limit_parsed.amount_num, 20);
    assert_eq!(limit_parsed.amount_den, 1);
    assert_eq!(limit_parsed.unit, LimitUnit::Percent);

    // Check no size indicator (should fail)
    let limit = "100".to_string();
    assert!(parse_limit(&limit).is_none());
}

#[test]
fn test_size_conversion() {
    let kb = "KB".to_string();
    let mb = "MB".to_string();
    let gb = "GB".to_string();
    let tb = "TB".to_string();

    assert_eq!(size_conversion(&kb), 1);
    assert_eq!(size_conversion(&mb), 2);
    assert_eq!(size_conversion(&gb), 3);
    assert_eq!(size_conversion(&tb), 4);
}

#[test]
fn test_used_check_percentage() {
    // 85% used
    let disk = DiskSpace { total: 100, available: 15 };

    // used space greater than 90% will fail
    // this should pass
    let limit_good = Limit { amount_num: 90, amount_den: 1, unit: LimitUnit::Percent };

    // used space greater than 40% will fail
    // this should fail
    let limit_bad = Limit { amount_num: 40, amount_den: 1, unit: LimitUnit::Percent };

    // expect that less than 90% has been used
    assert!(!used_check(&limit_good, &disk));

    // expect that more than 40% has been used
    assert!(used_check(&limit_bad, &disk));
}

#[test]
fn test_free_check_percentage() {
    let disk = DiskSpace { total: 100, available: 85 };

    let limit_good = Limit { amount_num: 80, amount_den: 1, unit: LimitUnit::Percent };

    let limit_bad = Limit { amount_num: 90, amount_den: 1, unit: LimitUnit::Percent };

    // expect that there is enough space free on the disk
    assert!(!free_check(&limit_good, &disk));

    // expect that there is not enough space free on the disk
    assert!(free_check(&limit_bad, &disk));
}

#[test]
fn parse_limit_case_insensitive_units() {
    for (text, unit) in [
        ("200kb", ByteUnit::KB),
        ("200Kb", ByteUnit::KB),
        ("200mb", ByteUnit::MB),
        ("200 gB", ByteUnit::GB),
        ("200tb", ByteUnit::TB),
    ] {
        let parsed = parse_limit(&text.to_string()).unwrap();
        assert_eq!(parsed.amount_num, 200);
        assert_eq!(parsed.amount_den, 1);
        assert_eq!(parsed.unit, LimitUnit::Size(unit));
    }
}

#[test]
fn parse_limit_decimal_amount() {
    let parsed = parse_limit(&"1.5 GB".to_string()).unwrap();
    assert_eq!(parsed.amount_num, 15);
    assert_eq!(parsed.amount_den, 10);
    assert_eq!(parsed.unit, LimitUnit::Size(ByteUnit::GB));

    let parsed = parse_limit(&"0.25%".to_string()).unwrap();
    assert_eq!(parsed.amount_num, 25);
    assert_eq!(parsed.amount_den, 100);
    assert_eq!(parsed.unit, LimitUnit::Percent);
}

#[test]
fn parse_limit_rejections() {
    // empty, unit alone, malformed amounts, unknown tokens, oversized amounts
    for text in [
        "", "MB", ".", ".%", "1.2.3MB", "20M", "20 XB", "20  %", "20%%", "20 % ",
        "1234567890123456MB", "12a", "a20MB",
    ] {
        assert!(parse_limit(&text.to_string()).is_none(), "{:?} must not parse", text);
    }
}

#[test]
fn bytes_per_unit_values_grow() {
    assert_eq!(bytes_per_unit(ByteUnit::KB), 1024);
    assert_eq!(bytes_per_unit(ByteUnit::MB), 1024 * 1024);
    assert_eq!(bytes_per_unit(ByteUnit::GB), 1024 * 1024 * 1024);
    assert_eq!(bytes_per_unit(ByteUnit::TB), 1024u64 * 1024 * 1024 * 1024);
    assert!(bytes_per_unit(ByteUnit::KB) < bytes_per_unit(ByteUnit::MB));
    assert!(bytes_per_unit(ByteUnit::MB) < bytes_per_unit(ByteUnit::GB));
    assert!(bytes_per_unit(ByteUnit::GB) < bytes_per_unit(ByteUnit::TB));
}

#[test]
fn free_check_fully_free_disk_never_fails() {
    // a fully free disk passes any percentage up to one hundred
    let disk = DiskSpace { total: 5000, available: 5000 };
    for pct in [0u64, 1, 50, 99, 100] {
        let l = Limit { amount_num: pct, amount_den: 1, unit: LimitUnit::Percent };
        assert!(!free_check(&l, &disk));
    }
    // and any absolute threshold no larger than the total
    let disk = DiskSpace { total: 3 * 1024 * 1024, available: 3 * 1024 * 1024 };
    let l = Limit { amount_num: 3, amount_den: 1, unit: LimitUnit::Size(ByteUnit::MB) };
    assert!(!free_check(&l, &disk));
}

#[test]
fn used_and_free_are_complements_at_split_thresholds() {
    // 85 used of 100: used > 40 fails exactly as free < 60 fails
    let disk = DiskSpace { total: 100, available: 15 };
    let used_limit = Limit { amount_num: 40, amount_den: 1, unit: LimitUnit::Percent };
    let free_limit = Limit { amount_num: 60, amount_den: 1, unit: LimitUnit::Percent };
    assert_eq!(used_check(&used_limit, &disk), free_check(&free_limit, &disk));

    // on the boundary both pass: exactly 85% used, limits 85/15
    let used_limit = Limit { amount_num: 85, amount_den: 1, unit: LimitUnit::Percent };
    let free_limit = Limit { amount_num: 15, amount_den: 1, unit: LimitUnit::Percent };
    assert!(!used_check(&used_limit, &disk));
    assert!(!free_check(&free_limit, &disk));
}

#[test]
fn check_space_scenarios() {
    let disk = DiskSpace { total: 100, available: 15 };
    assert!(!check_space(&"used".to_string(), &disk, &"90%".to_string()));
    assert!(check_space(&"used".to_string(), &disk, &"40%".to_string()));

    let disk = DiskSpace { total: 100, available: 85 };
    assert!(!check_space(&"free".to_string(), &disk, &"80%".to_string()));
    assert!(check_space(&"free".to_string(), &disk, &"90%".to_string()));

    // recovered errors never fail the check
    assert!(!check_space(&"used".to_string(), &disk, &"90".to_string()));
    assert!(!check_space(&"sideways".to_string(), &disk, &"90%".to_string()));
}

#[test]
fn evaluate_absolute_thresholds() {
    let disk = DiskSpace { total: 10 * 1024 * 1024, available: 2 * 1024 * 1024 };
    let three_mb = Limit { amount_num: 3, amount_den: 1, unit: LimitUnit::Size(ByteUnit::MB) };
    // needing 3 MB free of 2 MB available fails
    assert!(evaluate(&disk, CheckMode::FreeRemaining, &three_mb));
    // 8 MB used is more than 3 MB: fails
    assert!(evaluate(&disk, CheckMode::UsedConsumed, &three_mb));
    let nine_mb = Limit { amount_num: 9, amount_den: 1, unit: LimitUnit::Size(ByteUnit::MB) };
    assert!(!evaluate(&disk, CheckMode::UsedConsumed, &nine_mb));
}

#[test]
fn round_to_mb_half_up() {
    assert_eq!(round_to_mb(0), 0);
    assert_eq!(round_to_mb(524287), 0);
    assert_eq!(round_to_mb(524288), 1);
    assert_eq!(round_to_mb(1048576), 1);
    assert_eq!(round_to_mb(300 * 1048576 + 524287), 300);
}

#[test]
fn u64_to_string_decimal() {
    assert_eq!(u64_to_string(0), "0");
    assert_eq!(u64_to_string(7), "7");
    assert_eq!(u64_to_string(1048576), "1048576");
    assert_eq!(u64_to_string(u64::MAX), "18446744073709551615");
}

#[test]
fn join_strings_with_separator() {
    let parts = vec!["a".to_string(), "b".to_string(), "c".to_string()];
    assert_eq!(join_strings(&parts, " - "), "a - b - c");
    let one = vec!["solo".to_string()];
    assert_eq!(join_strings(&one, "<br />"), "solo");
    let none: Vec<String> = Vec::new();
    assert_eq!(join_strings(&none, ", "), "");
}

#[test]
fn log_lines_are_prefixed() {
    assert_eq!(info("hello"), "INFO: hello");
    assert_eq!(warn("careful"), "WARN: careful");
    assert_eq!(error("broken"), "ERROR: broken");
    assert_eq!(fail("check"), "FAIL: check");
}

#[test]
fn compose_email_subject_and_body() {
    let (subject, body) = compose_email("host9", "bigdisk", "Mon, 01 Jan 2024 00:00:00 +0000", "text");
    assert_eq!(subject, "host9 - Failed Check: bigdisk");
    assert_eq!(body, "<h3>Mon, 01 Jan 2024 00:00:00 +0000</h3><b>text</b>");
}

fn entry(disk: &str, option: &str, limit: &str) -> CheckEntry {
    CheckEntry { disk: disk.to_string(), option: option.to_string(), limit: limit.to_string() }
}

fn email_rule(name: &str, entries: Vec<CheckEntry>) -> RuleConfig {
    RuleConfig {
        name: name.to_string(),
        description: None,
        rule_type: "disk".to_string(),
        rules: entries,
        alerts: vec![(
            "email".to_string(),
            Alert { contacts: vec!["ops@example.com".to_string()] },
        )],
    }
}

#[test]
fn rule_with_one_failure_and_one_parse_error_dispatches_once() {
    // 85 of 100 MB used; "used > 40%" fails its threshold, the second limit
    // cannot be parsed; exactly one record, dispatched exactly once.
    let rule = email_rule(
        "bigdisk",
        vec![entry("/data", "used", "40%"), entry("/data", "used", "40")],
    );
    let snapshots = vec![("/data".to_string(), DiskSpace { total: 100 * 1048576, available: 15 * 1048576 })];
    let outcome = handle_disk_check(&rule, &snapshots);

    assert_eq!(outcome.failures.len(), 1);
    assert_eq!(
        outcome.failures[0],
        vec![
            "Rule 'bigdisk' failed for mount point '/data'".to_string(),
            "Total/Free Space: 100 MB/15 MB".to_string(),
            "Warning Limit: 40% used".to_string(),
        ]
    );
    assert!(outcome
        .logs
        .contains(&"FAIL: Failed to parse rule for disk size check".to_string()));
    assert_eq!(outcome.dispatches.len(), 1);
    match &outcome.dispatches[0] {
        Dispatch::Email { rule, contacts, body } => {
            assert_eq!(rule, "bigdisk");
            assert_eq!(contacts, &vec!["ops@example.com".to_string()]);
            assert_eq!(
                body,
                "Rule 'bigdisk' failed for mount point '/data'<br />Total/Free Space: 100 MB/15 MB<br />Warning Limit: 40% used"
            );
        }
        other => panic!("expected an email dispatch, got {:?}", other),
    }
}

#[test]
fn rule_with_no_failures_dispatches_nothing() {
    let rule = email_rule("quiet", vec![entry("/", "free", "10%"), entry("/", "used", "95%")]);
    let snapshots = vec![("/".to_string(), DiskSpace { total: 1000, available: 500 })];
    let outcome = handle_disk_check(&rule, &snapshots);
    assert!(outcome.failures.is_empty());
    assert!(outcome.dispatches.is_empty());
    assert!(outcome.logs.contains(&"INFO: Rule 'quiet' Passed for mount point '/'".to_string()));
}

#[test]
fn missing_disk_and_bad_mode_are_recovered() {
    let rule = email_rule(
        "holes",
        vec![entry("/nope", "used", "40%"), entry("/", "sideways", "40%")],
    );
    let snapshots = vec![("/".to_string(), DiskSpace { total: 100, available: 50 })];
    let outcome = handle_disk_check(&rule, &snapshots);
    assert!(outcome.failures.is_empty());
    assert!(outcome.dispatches.is_empty());
    assert!(outcome.logs.contains(&"ERROR: Failed".to_string()));
    assert!(outcome.logs.contains(&"FAIL: Unknown disk check type 'sideways'".to_string()));
}

#[test]
fn two_failures_are_joined_with_a_divider() {
    let rule = email_rule("both", vec![entry("/a", "used", "1%"), entry("/b", "used", "1%")]);
    let snapshots = vec![
        ("/a".to_string(), DiskSpace { total: 100 * 1048576, available: 15 * 1048576 }),
        ("/b".to_string(), DiskSpace { total: 100 * 1048576, available: 15 * 1048576 }),
    ];
    let outcome = handle_disk_check(&rule, &snapshots);
    assert_eq!(outcome.failures.len(), 2);
    assert_eq!(outcome.dispatches.len(), 1);
    match &outcome.dispatches[0] {
        Dispatch::Email { body, .. } => {
            assert!(body.contains("<br /><hr /><br />"));
            assert!(body.starts_with("Rule 'both' failed for mount point '/a'"));
        }
        other => panic!("expected an email dispatch, got {:?}", other),
    }
    // the failure log lines join the record with " - "
    assert!(outcome.logs.iter().any(|l| l.starts_with("FAIL: Rule 'both' failed for mount point '/a' - Total/Free Space:")));
}

#[test]
fn handle_alerts_routes_recognized_channels_only() {
    let failures = vec![vec!["one".to_string(), "two".to_string()]];
    let alerts = vec![
        ("pager".to_string(), Alert { contacts: vec![] }),
        ("email".to_string(), Alert { contacts: vec!["a@b.c".to_string()] }),
        ("logging".to_string(), Alert { contacts: vec![] }),
    ];
    let outcome = handle_alerts(failures, &"r".to_string(), &alerts);
    assert_eq!(outcome.logs, vec!["FAIL: one - two".to_string()]);
    assert_eq!(outcome.dispatches.len(), 2);
    match &outcome.dispatches[0] {
        Dispatch::Email { rule, contacts, body } => {
            assert_eq!(rule, "r");
            assert_eq!(contacts, &vec!["a@b.c".to_string()]);
            assert_eq!(body, "one<br />two");
        }
        other => panic!("expected an email dispatch, got {:?}", other),
    }
    match &outcome.dispatches[1] {
        Dispatch::LogFile { body } => assert_eq!(body, "one\ntwo"),
        other => panic!("expected a log-file dispatch, got {:?}", other),
    }
}

#[test]
fn exec_rule_check_dispatches_by_rule_type() {
    let rule = email_rule("bigdisk", vec![entry("/", "used", "40%")]);
    let snapshots = vec![("/".to_string(), DiskSpace { total: 100, available: 15 })];
    let outcome = exec_rule_check(&rule, &snapshots);
    assert_eq!(outcome.failures.len(), 1);

    let mut other = email_rule("cpus", vec![]);
    other.rule_type = "cpu".to_string();
    let outcome = exec_rule_check(&other, &snapshots);
    assert!(outcome.failures.is_empty());
    assert!(outcome.dispatches.is_empty());
    assert_eq!(outcome.logs, vec!["ERROR: Unknown rule type 'cpu'".to_string()]);
}

#[test]
fn get_disk_info_finds_first_match() {
    let snapshots = vec![
        ("/".to_string(), DiskSpace { total: 10, available: 5 }),
        ("/data".to_string(), DiskSpace { total: 20, available: 6 }),
        ("/data".to_string(), DiskSpace { total: 30, available: 7 }),
    ];
    assert_eq!(get_disk_info(&"/data".to_string(), &snapshots), Some(DiskSpace { total: 20, available: 6 }));
    assert_eq!(get_disk_info(&"/nope".to_string(), &snapshots), None);
}

#[test]
fn config_debug_flag_defaults_off() {
    let config = Config {
        debug: None,
        rules: RulesConf { location: "rules".to_string() },
        alerts: AlertsConf {
            email: AlertEmailConf {
                smtp: "smtp.example.com".to_string(),
                user: "user".to_string(),
                password: "password".to_string(),
                from_address: "from@example.com".to_string(),
            },
            logging: AlertLoggingConf {
                location: "/var/log".to_string(),
                file: "alerts.log".to_string(),
                rotation: vec![],
            },
        },
    };
    assert!(!config.debug_enabled());
    let mut on = config;
    on.debug = Some(true);
    assert!(on.debug_enabled());
}
