//! Aggregation of a rule's failures into one notification per configured
//! alert channel. The engine formats the payloads and says which adapters
//! to invoke; the surrounding program does the delivery.

use vstd::prelude::*;
use crate::rules::Alert;
use crate::text::{spec_join, join_strings, str_eq, s_append};
use crate::log::fail;

verus! {

/// One planned channel invocation: the matching adapter is to be called
/// exactly once with this payload.
#[derive(Clone, Debug)]
pub enum Dispatch {
    /// Send one email about `rule` to `contacts`, with the rich-text `body`.
    Email { rule: String, contacts: Vec<String>, body: String },
    /// Append the plain-text `body` to the alert log file.
    LogFile { body: String },
}

/// The mathematical shape of a planned invocation.
pub enum DispatchV {
    Email { rule: Seq<char>, contacts: Seq<Seq<char>>, body: Seq<char> },
    LogFile { body: Seq<char> },
}

impl View for Dispatch {
    type V = DispatchV;

    open spec fn view(&self) -> DispatchV {
        match self {
            Dispatch::Email { rule, contacts, body } => DispatchV::Email {
                rule: rule@,
                contacts: contacts.deep_view(),
                body: body@,
            },
            Dispatch::LogFile { body } => DispatchV::LogFile { body: body@ },
        }
    }
}

/// What the alert dispatcher hands back: the failure log lines, and the
/// channel invocations the program is to perform.
pub struct AlertOutcome {
    pub logs: Vec<String>,
    pub dispatches: Vec<Dispatch>,
}

/// One failure log line per failed check: its record's lines joined with
/// `" - "`, at fail level.
pub open spec fn spec_fail_logs(failures: Seq<Seq<Seq<char>>>) -> Seq<Seq<char>> {
    failures.map_values(|rec: Seq<Seq<char>>| "FAIL: "@ + spec_join(rec, " - "@))
}

/// The rich-text body: each record's lines joined with a line break, the
/// records separated by a divider.
pub open spec fn spec_email_body(failures: Seq<Seq<Seq<char>>>) -> Seq<char> {
    spec_join(
        failures.map_values(|rec: Seq<Seq<char>>| spec_join(rec, "<br />"@)),
        "<br /><hr /><br />"@,
    )
}

/// The plain-text body: every line of every record, one per line.
pub open spec fn spec_plain_body(failures: Seq<Seq<Seq<char>>>) -> Seq<char> {
    spec_join(failures.map_values(|rec: Seq<Seq<char>>| spec_join(rec, "\n"@)), "\n"@)
}

/// The invocations owed for a rule's alert channels, in configuration
/// order: one per recognized channel name; unknown names are ignored.
pub open spec fn spec_dispatches(
    alerts: Seq<(String, Alert)>,
    rule: Seq<char>,
    html_body: Seq<char>,
    plain_body: Seq<char>,
) -> Seq<DispatchV>
    decreases alerts.len(),
{
    if alerts.len() == 0 {
        Seq::empty()
    } else {
        let pre = spec_dispatches(alerts.drop_last(), rule, html_body, plain_body);
        let (name, alert) = alerts.last();
        if name@ == "email"@ {
            pre.push(
                DispatchV::Email {
                    rule,
                    contacts: alert.contacts.deep_view(),
                    body: html_body,
                },
            )
        } else if name@ == "logging"@ {
            pre.push(DispatchV::LogFile { body: plain_body })
        } else {
            pre
        }
    }
}

/// Aggregates the failure records of one rule: logs each failed check at
/// fail level, and plans exactly one invocation per recognized alert
/// channel, with the combined body formatted for that channel.
pub fn handle_alerts(failure_msgs: Vec<Vec<String>>, rule_name: &String, alerts: &Vec<(String, Alert)>) -> (r: AlertOutcome)
    ensures
        r.logs.deep_view() == spec_fail_logs(failure_msgs.deep_view()),
        r.dispatches@.map_values(|d: Dispatch| d@) == spec_dispatches(
            alerts@,
            rule_name@,
            spec_email_body(failure_msgs.deep_view()),
            spec_plain_body(failure_msgs.deep_view()),
        ),
{
    let ghost dv = failure_msgs.deep_view();
    let mut logs: Vec<String> = Vec::new();
    let mut html_msgs: Vec<String> = Vec::new();
    let mut plain_msgs: Vec<String> = Vec::new();
    let mut i: usize = 0;
    while i < failure_msgs.len()
        invariant
            0 <= i <= failure_msgs@.len(),
            dv == failure_msgs.deep_view(),
            dv.len() == failure_msgs@.len(),
            forall|j: int| 0 <= j < failure_msgs@.len() ==> dv[j] == failure_msgs@[j].deep_view(),
            logs.deep_view() =~= spec_fail_logs(dv.take(i as int)),
            html_msgs.deep_view() =~= dv.take(i as int).map_values(
                |rec: Seq<Seq<char>>| spec_join(rec, "<br />"@),
            ),
            plain_msgs.deep_view() =~= dv.take(i as int).map_values(
                |rec: Seq<Seq<char>>| spec_join(rec, "\n"@),
            ),
        decreases failure_msgs@.len() - i,
    {
        let ghost old_logs = logs.deep_view();
        let ghost old_html = html_msgs.deep_view();
        let ghost old_plain = plain_msgs.deep_view();
        let joined = join_strings(&failure_msgs[i], " - ");
        logs.push(fail(joined.as_str()));
        html_msgs.push(join_strings(&failure_msgs[i], "<br />"));
        plain_msgs.push(join_strings(&failure_msgs[i], "\n"));
        proof {
            assert(logs.deep_view() =~= old_logs.push("FAIL: "@ + spec_join(dv[i as int], " - "@)));
            assert(html_msgs.deep_view() =~= old_html.push(spec_join(dv[i as int], "<br />"@)));
            assert(plain_msgs.deep_view() =~= old_plain.push(spec_join(dv[i as int], "\n"@)));
            assert(logs.deep_view() =~= spec_fail_logs(dv.take(i + 1)));
            assert(html_msgs.deep_view() =~= dv.take(i + 1).map_values(
                |rec: Seq<Seq<char>>| spec_join(rec, "<br />"@),
            ));
            assert(plain_msgs.deep_view() =~= dv.take(i + 1).map_values(
                |rec: Seq<Seq<char>>| spec_join(rec, "\n"@),
            ));
        }
        i = i + 1;
    }
    proof {
        assert(dv.take(dv.len() as int) =~= dv);
    }
    let html_body = join_strings(&html_msgs, "<br /><hr /><br />");
    let plain_body = join_strings(&plain_msgs, "\n");
    let mut dispatches: Vec<Dispatch> = Vec::new();
    let mut k: usize = 0;
    while k < alerts.len()
        invariant
            0 <= k <= alerts@.len(),
            html_body@ == spec_email_body(dv),
            plain_body@ == spec_plain_body(dv),
            dv == failure_msgs.deep_view(),
            dispatches@.map_values(|d: Dispatch| d@) =~= spec_dispatches(
                alerts@.take(k as int),
                rule_name@,
                html_body@,
                plain_body@,
            ),
        decreases alerts@.len() - k,
    {
        proof {
            assert(alerts@.take(k + 1).drop_last() =~= alerts@.take(k as int));
        }
        let entry = &alerts[k];
        if str_eq(entry.0.as_str(), "email") {
            let d = Dispatch::Email {
                rule: rule_name.clone(),
                contacts: entry.1.contacts.clone(),
                body: html_body.clone(),
            };
            dispatches.push(d);
        } else if str_eq(entry.0.as_str(), "logging") {
            dispatches.push(Dispatch::LogFile { body: plain_body.clone() });
        }
        proof {
            assert(dispatches@.map_values(|d: Dispatch| d@) =~= spec_dispatches(
                alerts@.take(k + 1),
                rule_name@,
                html_body@,
                plain_body@,
            ));
        }
        k = k + 1;
    }
    proof {
        assert(alerts@.take(alerts@.len() as int) =~= alerts@);
    }
    AlertOutcome { logs, dispatches }
}

/// Composes the email notification: a subject naming the reporting host and
/// the failed rule, and a rich-text body opening with the timestamp.
pub fn compose_email(hostname: &str, rule_name: &str, timestamp: &str, body: &str) -> (r: (
    String,
    String,
))
    ensures
        r.0@ == hostname@ + " - Failed Check: "@ + rule_name@,
        r.1@ == "<h3>"@ + timestamp@ + "</h3><b>"@ + body@ + "</b>"@,
{
    let mut subject = String::new();
    s_append(&mut subject, hostname);
    s_append(&mut subject, " - Failed Check: ");
    s_append(&mut subject, rule_name);
    let mut html = String::new();
    s_append(&mut html, "<h3>");
    s_append(&mut html, timestamp);
    s_append(&mut html, "</h3><b>");
    s_append(&mut html, body);
    s_append(&mut html, "</b>");
    (subject, html)
}

} // verus!
