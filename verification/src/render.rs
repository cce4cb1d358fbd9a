//! Deterministic rendering of an alert model into the notification text.
//!
//! The whole message is pinned down by [`spec_message`]: same model and
//! same dashboard value, same text, character for character.  Absent
//! optional data omits its line entirely; no empty placeholder is emitted.

use vstd::prelude::*;

use crate::model::{
    spec_condition_symbol, spec_resource_name, spec_severity_symbol, AzureAlert, AzureAlertView,
    Condition, ConditionView, Dimension, DimensionView,
};

verus! {

/// One `> *Name:* Value` line per dimension of the primary metric.
pub open spec fn spec_dim_line(d: DimensionView) -> Seq<char> {
    "> *"@ + d.name + ":* "@ + d.value + "\n"@
}

/// The dimension lines, in source order.
pub open spec fn spec_dim_lines(ds: Seq<DimensionView>) -> Seq<char>
    decreases ds.len(),
{
    if ds.len() == 0 {
        Seq::empty()
    } else {
        spec_dim_lines(ds.drop_last()) + spec_dim_line(ds.last())
    }
}

/// The `> *Description:* ...` line, or nothing when the alert has none.
pub open spec fn spec_description_line(d: Option<Seq<char>>) -> Seq<char> {
    match d {
        Option::Some(s) => "> *Description:* "@ + s + "\n"@,
        Option::None => Seq::empty(),
    }
}

/// The metric line for the primary metric and its dimension lines, or
/// nothing when the alert carries no metric condition.
pub open spec fn spec_metric_block(c: ConditionView) -> Seq<char> {
    if c.all_of.len() == 0 {
        Seq::empty()
    } else {
        let m = c.all_of[0];
        let line = "> *Metric:* "@ + m.metric_name + " "@ + m.operator + " "@ + m.threshold
            + " (Current: "@ + m.metric_value + ")\n"@;
        match m.dimensions {
            Option::Some(ds) => line + spec_dim_lines(ds),
            Option::None => line,
        }
    }
}

/// The trailing dashboard link line, emitted only for a present, non-empty
/// dashboard URL.
pub open spec fn spec_link_line(dash: Option<Seq<char>>) -> Seq<char> {
    match dash {
        Option::Some(u) => if u.len() > 0 {
            "> <"@ + u + "|View in Azure>\n"@
        } else {
            Seq::empty()
        },
        Option::None => Seq::empty(),
    }
}

/// The message up to (and including) the metric block: everything but the
/// dashboard link line.
pub open spec fn spec_message_body(a: AzureAlertView) -> Seq<char> {
    let e = a.data.essentials;
    spec_severity_symbol(e.severity) + " "@ + spec_condition_symbol(e.monitor_condition) + " *"@
        + e.alert_rule + "*\n"@ + spec_description_line(e.description) + "> *Resource:* "@
        + spec_resource_name(a) + "\n"@ + "> *Severity:* "@ + e.severity + "\n"@ + "> *Time:* "@
        + e.fired_date_time + "\n"@ + spec_metric_block(a.data.alert_context.condition)
}

/// The whole notification text for an alert and a dashboard configuration
/// value.
pub open spec fn spec_message(a: AzureAlertView, dash: Option<Seq<char>>) -> Seq<char> {
    spec_message_body(a) + spec_link_line(dash)
}

fn description_line(d: &Option<String>) -> (r: String)
    ensures
        r@ == spec_description_line(d.deep_view()),
{
    match d {
        Option::Some(s) => {
            let mut p = String::from_str("> *Description:* ");
            p.append(s.as_str());
            p.append("\n");
            p
        },
        Option::None => String::new(),
    }
}

fn dim_lines(ds: &Vec<Dimension>) -> (r: String)
    ensures
        r@ == spec_dim_lines(ds.deep_view()),
{
    let mut p = String::new();
    let n = ds.len();
    let mut i: usize = 0;
    proof {
        assert(ds.deep_view().take(0int) =~= Seq::<DimensionView>::empty());
    }
    while i < n
        invariant
            n == ds@.len(),
            i <= n,
            p@ == spec_dim_lines(ds.deep_view().take(i as int)),
        decreases n - i,
    {
        p.append("> *");
        p.append(ds[i].name.as_str());
        p.append(":* ");
        p.append(ds[i].value.as_str());
        p.append("\n");
        proof {
            assert(ds.deep_view().take(i + 1 as int).drop_last() =~= ds.deep_view().take(i as int));
            assert(ds.deep_view().take(i + 1 as int).last() == ds@[i as int]@);
            assert(p@ =~= spec_dim_lines(ds.deep_view().take(i + 1 as int)));
        }
        i = i + 1;
    }
    proof {
        assert(ds.deep_view().take(n as int) =~= ds.deep_view());
    }
    p
}

fn metric_block(c: &Condition) -> (r: String)
    ensures
        r@ == spec_metric_block(c@),
{
    if c.all_of.len() == 0 {
        String::new()
    } else {
        let m = &c.all_of[0];
        proof {
            assert(c.all_of.deep_view()[0] == c.all_of@[0]@);
        }
        let mut p = String::from_str("> *Metric:* ");
        p.append(m.metric_name.as_str());
        p.append(" ");
        p.append(m.operator.as_str());
        p.append(" ");
        p.append(m.threshold.as_str());
        p.append(" (Current: ");
        p.append(m.metric_value.as_str());
        p.append(")\n");
        match &m.dimensions {
            Option::Some(ds) => {
                let lines = dim_lines(ds);
                p.append(lines.as_str());
            },
            Option::None => {},
        }
        p
    }
}

fn link_line(dash: &Option<String>) -> (r: String)
    ensures
        r@ == spec_link_line(dash.deep_view()),
{
    match dash {
        Option::Some(u) => {
            if !u.as_str().is_empty() {
                let mut p = String::from_str("> <");
                p.append(u.as_str());
                p.append("|View in Azure>\n");
                p
            } else {
                String::new()
            }
        },
        Option::None => String::new(),
    }
}

/// Renders the notification text for an alert, given the optional dashboard
/// URL from configuration.  The result is exactly [`spec_message`]: the
/// header line, then one line per present attribute, each ended by a line
/// break.
pub fn format_alert_message(alert: &AzureAlert, dashboard_url: &Option<String>) -> (r: String)
    ensures
        r@ == spec_message(alert@, dashboard_url.deep_view()),
{
    let mut m = String::new();
    m.append(alert.get_severity_emoji());
    m.append(" ");
    m.append(alert.get_condition_emoji());
    m.append(" *");
    m.append(alert.data.essentials.alert_rule.as_str());
    m.append("*\n");
    let desc = description_line(&alert.data.essentials.description);
    m.append(desc.as_str());
    m.append("> *Resource:* ");
    m.append(alert.get_resource_name());
    m.append("\n");
    m.append("> *Severity:* ");
    m.append(alert.data.essentials.severity.as_str());
    m.append("\n");
    m.append("> *Time:* ");
    m.append(alert.data.essentials.fired_date_time.as_str());
    m.append("\n");
    let metric = metric_block(&alert.data.alert_context.condition);
    m.append(metric.as_str());
    let link = link_line(dashboard_url);
    m.append(link.as_str());
    m
}

/// Law: rendering is deterministic.  Any two texts that satisfy the
/// renderer's contract for the same model and the same dashboard value are
/// the same text.
pub proof fn lemma_render_deterministic(
    a: AzureAlertView,
    dash: Option<Seq<char>>,
    r1: Seq<char>,
    r2: Seq<char>,
)
    requires
        r1 == spec_message(a, dash),
        r2 == spec_message(a, dash),
    ensures
        r1 == r2,
{
}

/// Law: omitting the dashboard URL omits the trailing link line entirely —
/// the message ends at the metric block, with no empty line appended.  An
/// empty dashboard URL behaves like an absent one.
pub proof fn lemma_no_dashboard_no_link(a: AzureAlertView)
    ensures
        spec_message(a, Option::None) == spec_message_body(a),
        spec_message(a, Option::Some(Seq::empty())) == spec_message_body(a),
{
    assert(spec_message_body(a) + Seq::<char>::empty() =~= spec_message_body(a));
}

} // verus!
