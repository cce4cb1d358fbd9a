//! Typed model of the Azure Monitor common alert schema, and the pure
//! display attributes derived from it.
//!
//! The model mirrors the subset of the inbound schema the relay reads.
//! Optional fields are explicit `Option`s, so an absent field stays
//! distinguishable from an empty one.  Values are taken verbatim from the
//! payload; no semantic validation happens here.

use vstd::prelude::*;

use crate::text::{last_segment, spec_last_segment, str_eq};

verus! {

broadcast use vstd::string::group_string_axioms;

/// One metric dimension, e.g. `StatusCode: 429`.
#[derive(Debug)]
pub struct Dimension {
    pub name: String,
    pub value: String,
}

pub ghost struct DimensionView {
    pub name: Seq<char>,
    pub value: Seq<char>,
}

impl View for Dimension {
    type V = DimensionView;

    open spec fn view(&self) -> DimensionView {
        DimensionView { name: self.name@, value: self.value@ }
    }
}

impl DeepView for Dimension {
    type V = DimensionView;

    open spec fn deep_view(&self) -> DimensionView {
        self@
    }
}

/// One metric condition of the alert.
#[derive(Debug)]
pub struct MetricCondition {
    pub metric_name: String,
    pub metric_namespace: Option<String>,
    pub operator: String,
    /// Kept as the payload's string: it may encode non-numeric expressions.
    pub threshold: String,
    /// The metric's current value, as the text the default float-to-text
    /// conversion gives for it.
    pub metric_value: String,
    pub time_aggregation: Option<String>,
    pub dimensions: Option<Vec<Dimension>>,
}

pub ghost struct MetricConditionView {
    pub metric_name: Seq<char>,
    pub metric_namespace: Option<Seq<char>>,
    pub operator: Seq<char>,
    pub threshold: Seq<char>,
    pub metric_value: Seq<char>,
    pub time_aggregation: Option<Seq<char>>,
    pub dimensions: Option<Seq<DimensionView>>,
}

impl View for MetricCondition {
    type V = MetricConditionView;

    open spec fn view(&self) -> MetricConditionView {
        MetricConditionView {
            metric_name: self.metric_name@,
            metric_namespace: self.metric_namespace.deep_view(),
            operator: self.operator@,
            threshold: self.threshold@,
            metric_value: self.metric_value@,
            time_aggregation: self.time_aggregation.deep_view(),
            dimensions: self.dimensions.deep_view(),
        }
    }
}

impl DeepView for MetricCondition {
    type V = MetricConditionView;

    open spec fn deep_view(&self) -> MetricConditionView {
        self@
    }
}

/// Essential alert information.
#[derive(Debug)]
pub struct Essentials {
    pub alert_id: String,
    pub alert_rule: String,
    pub severity: String,
    pub monitor_condition: String,
    pub fired_date_time: String,
    pub description: Option<String>,
    pub alert_target_ids: Vec<String>,
    pub resolved_date_time: Option<String>,
    pub signal_type: Option<String>,
    pub monitoring_service: Option<String>,
    pub investigation_link: Option<String>,
}

pub ghost struct EssentialsView {
    pub alert_id: Seq<char>,
    pub alert_rule: Seq<char>,
    pub severity: Seq<char>,
    pub monitor_condition: Seq<char>,
    pub fired_date_time: Seq<char>,
    pub description: Option<Seq<char>>,
    pub alert_target_ids: Seq<Seq<char>>,
    pub resolved_date_time: Option<Seq<char>>,
    pub signal_type: Option<Seq<char>>,
    pub monitoring_service: Option<Seq<char>>,
    pub investigation_link: Option<Seq<char>>,
}

impl View for Essentials {
    type V = EssentialsView;

    open spec fn view(&self) -> EssentialsView {
        EssentialsView {
            alert_id: self.alert_id@,
            alert_rule: self.alert_rule@,
            severity: self.severity@,
            monitor_condition: self.monitor_condition@,
            fired_date_time: self.fired_date_time@,
            description: self.description.deep_view(),
            alert_target_ids: self.alert_target_ids.deep_view(),
            resolved_date_time: self.resolved_date_time.deep_view(),
            signal_type: self.signal_type.deep_view(),
            monitoring_service: self.monitoring_service.deep_view(),
            investigation_link: self.investigation_link.deep_view(),
        }
    }
}

impl DeepView for Essentials {
    type V = EssentialsView;

    open spec fn deep_view(&self) -> EssentialsView {
        self@
    }
}

/// Condition details for the alert.
#[derive(Debug)]
pub struct Condition {
    pub all_of: Vec<MetricCondition>,
    pub window_size: Option<String>,
}

pub ghost struct ConditionView {
    pub all_of: Seq<MetricConditionView>,
    pub window_size: Option<Seq<char>>,
}

impl View for Condition {
    type V = ConditionView;

    open spec fn view(&self) -> ConditionView {
        ConditionView { all_of: self.all_of.deep_view(), window_size: self.window_size.deep_view() }
    }
}

impl DeepView for Condition {
    type V = ConditionView;

    open spec fn deep_view(&self) -> ConditionView {
        self@
    }
}

/// Alert context containing condition details.
#[derive(Debug)]
pub struct AlertContext {
    pub condition: Condition,
    pub condition_type: Option<String>,
}

pub ghost struct AlertContextView {
    pub condition: ConditionView,
    pub condition_type: Option<Seq<char>>,
}

impl View for AlertContext {
    type V = AlertContextView;

    open spec fn view(&self) -> AlertContextView {
        AlertContextView {
            condition: self.condition@,
            condition_type: self.condition_type.deep_view(),
        }
    }
}

impl DeepView for AlertContext {
    type V = AlertContextView;

    open spec fn deep_view(&self) -> AlertContextView {
        self@
    }
}

/// Main alert data container.
#[derive(Debug)]
pub struct AlertData {
    pub essentials: Essentials,
    pub alert_context: AlertContext,
}

pub ghost struct AlertDataView {
    pub essentials: EssentialsView,
    pub alert_context: AlertContextView,
}

impl View for AlertData {
    type V = AlertDataView;

    open spec fn view(&self) -> AlertDataView {
        AlertDataView { essentials: self.essentials@, alert_context: self.alert_context@ }
    }
}

impl DeepView for AlertData {
    type V = AlertDataView;

    open spec fn deep_view(&self) -> AlertDataView {
        self@
    }
}

/// Root of the alert model, immutable once decoded.
#[derive(Debug)]
pub struct AzureAlert {
    pub schema_id: String,
    pub data: AlertData,
}

pub ghost struct AzureAlertView {
    pub schema_id: Seq<char>,
    pub data: AlertDataView,
}

impl View for AzureAlert {
    type V = AzureAlertView;

    open spec fn view(&self) -> AzureAlertView {
        AzureAlertView { schema_id: self.schema_id@, data: self.data@ }
    }
}

impl DeepView for AzureAlert {
    type V = AzureAlertView;

    open spec fn deep_view(&self) -> AzureAlertView {
        self@
    }
}

/// The display name of the alert's resource: the last `/`-separated segment
/// of the first target id, or `Unknown` when there is no target id.
pub open spec fn spec_resource_name(a: AzureAlertView) -> Seq<char> {
    if a.data.essentials.alert_target_ids.len() == 0 {
        "Unknown"@
    } else {
        spec_last_segment(a.data.essentials.alert_target_ids[0])
    }
}

/// The indicator symbol shown for a severity string.  `Sev0`..`Sev3` each
/// map to their own symbol; every other value maps to the symbol of `Sev4`.
pub open spec fn spec_severity_symbol(sev: Seq<char>) -> Seq<char> {
    if sev == "Sev0"@ {
        "\u{f8ff}\u{fc}\u{ee}\u{2022}"@
    } else if sev == "Sev1"@ {
        "\u{f8ff}\u{fc}\u{f6}\u{ae}"@
    } else if sev == "Sev2"@ {
        "\u{201a}\u{f6}\u{2020}\u{d4}\u{220f}\u{e8}"@
    } else if sev == "Sev3"@ {
        "\u{201a}\u{d1}\u{3c0}\u{d4}\u{220f}\u{e8}"@
    } else {
        "\u{f8ff}\u{fc}\u{ec}\u{a2}"@
    }
}

/// The indicator symbol shown for a monitor condition string: one symbol
/// for `Fired`, one for `Resolved`, a third for everything else.
pub open spec fn spec_condition_symbol(cond: Seq<char>) -> Seq<char> {
    if cond == "Fired"@ {
        "\u{f8ff}\u{fc}\u{ee}\u{a5}"@
    } else if cond == "Resolved"@ {
        "\u{201a}\u{fa}\u{d6}"@
    } else {
        "\u{f8ff}\u{fc}\u{fc}\u{b0}"@
    }
}

impl AzureAlert {
    /// Extract resource name from the first target ID.
    pub fn get_resource_name(&self) -> (r: &str)
        ensures
            r@ == spec_resource_name(self@),
    {
        if self.data.essentials.alert_target_ids.len() == 0 {
            "Unknown"
        } else {
            last_segment(self.data.essentials.alert_target_ids[0].as_str())
        }
    }

    /// Get severity indicator symbol based on severity level.
    pub fn get_severity_emoji(&self) -> (r: &str)
        ensures
            r@ == spec_severity_symbol(self@.data.essentials.severity),
    {
        let sev = self.data.essentials.severity.as_str();
        if str_eq(sev, "Sev0") {
            "\u{f8ff}\u{fc}\u{ee}\u{2022}"
        } else if str_eq(sev, "Sev1") {
            "\u{f8ff}\u{fc}\u{f6}\u{ae}"
        } else if str_eq(sev, "Sev2") {
            "\u{201a}\u{f6}\u{2020}\u{d4}\u{220f}\u{e8}"
        } else if str_eq(sev, "Sev3") {
            "\u{201a}\u{d1}\u{3c0}\u{d4}\u{220f}\u{e8}"
        } else {
            "\u{f8ff}\u{fc}\u{ec}\u{a2}"
        }
    }

    /// Get condition indicator symbol based on monitor condition.
    pub fn get_condition_emoji(&self) -> (r: &str)
        ensures
            r@ == spec_condition_symbol(self@.data.essentials.monitor_condition),
    {
        let cond = self.data.essentials.monitor_condition.as_str();
        if str_eq(cond, "Fired") {
            "\u{f8ff}\u{fc}\u{ee}\u{a5}"
        } else if str_eq(cond, "Resolved") {
            "\u{201a}\u{fa}\u{d6}"
        } else {
            "\u{f8ff}\u{fc}\u{fc}\u{b0}"
        }
    }

    /// Check if this is a resolved alert: true exactly when the monitor
    /// condition equals `Resolved`.
    pub fn is_resolved(&self) -> (r: bool)
        ensures
            r == (self@.data.essentials.monitor_condition == "Resolved"@),
    {
        str_eq(self.data.essentials.monitor_condition.as_str(), "Resolved")
    }

    /// Get the first metric condition, or nothing when the alert has none.
    pub fn get_primary_metric(&self) -> (r: Option<&MetricCondition>)
        ensures
            self@.data.alert_context.condition.all_of.len() == 0 <==> r is None,
            r matches Some(m) ==> m@ == self@.data.alert_context.condition.all_of[0],
    {
        if self.data.alert_context.condition.all_of.len() > 0 {
            Some(&self.data.alert_context.condition.all_of[0])
        } else {
            None
        }
    }
}

/// Law: the severity indicator is a total function.  Every severity string
/// maps to one of the five fixed symbols; `Sev0`..`Sev3` map to pairwise
/// distinct symbols, and every other value — `Sev4` included — maps to the
/// symbol of `Sev4`, which differs from the other four.
pub proof fn lemma_severity_symbol_total(sev: Seq<char>)
    ensures
        spec_severity_symbol(sev) == "\u{f8ff}\u{fc}\u{ee}\u{2022}"@ || spec_severity_symbol(sev)
            == "\u{f8ff}\u{fc}\u{f6}\u{ae}"@ || spec_severity_symbol(sev)
            == "\u{201a}\u{f6}\u{2020}\u{d4}\u{220f}\u{e8}"@ || spec_severity_symbol(sev)
            == "\u{201a}\u{d1}\u{3c0}\u{d4}\u{220f}\u{e8}"@ || spec_severity_symbol(sev)
            == "\u{f8ff}\u{fc}\u{ec}\u{a2}"@,
        sev != "Sev0"@ && sev != "Sev1"@ && sev != "Sev2"@ && sev != "Sev3"@
            ==> spec_severity_symbol(sev) == spec_severity_symbol("Sev4"@),
        spec_severity_symbol("Sev0"@) != spec_severity_symbol("Sev1"@),
        spec_severity_symbol("Sev0"@) != spec_severity_symbol("Sev2"@),
        spec_severity_symbol("Sev0"@) != spec_severity_symbol("Sev3"@),
        spec_severity_symbol("Sev0"@) != spec_severity_symbol("Sev4"@),
        spec_severity_symbol("Sev1"@) != spec_severity_symbol("Sev2"@),
        spec_severity_symbol("Sev1"@) != spec_severity_symbol("Sev3"@),
        spec_severity_symbol("Sev1"@) != spec_severity_symbol("Sev4"@),
        spec_severity_symbol("Sev2"@) != spec_severity_symbol("Sev3"@),
        spec_severity_symbol("Sev2"@) != spec_severity_symbol("Sev4"@),
        spec_severity_symbol("Sev3"@) != spec_severity_symbol("Sev4"@),
{
    reveal_strlit("Sev0");
    reveal_strlit("Sev1");
    reveal_strlit("Sev2");
    reveal_strlit("Sev3");
    reveal_strlit("Sev4");
    reveal_strlit("\u{f8ff}\u{fc}\u{ee}\u{2022}");
    reveal_strlit("\u{f8ff}\u{fc}\u{f6}\u{ae}");
    reveal_strlit("\u{201a}\u{f6}\u{2020}\u{d4}\u{220f}\u{e8}");
    reveal_strlit("\u{201a}\u{d1}\u{3c0}\u{d4}\u{220f}\u{e8}");
    reveal_strlit("\u{f8ff}\u{fc}\u{ec}\u{a2}");
    assert("\u{f8ff}\u{fc}\u{ee}\u{2022}"@.len() == 4);
    assert("\u{f8ff}\u{fc}\u{f6}\u{ae}"@.len() == 4);
    assert("\u{201a}\u{f6}\u{2020}\u{d4}\u{220f}\u{e8}"@.len() == 6);
    assert("\u{201a}\u{d1}\u{3c0}\u{d4}\u{220f}\u{e8}"@.len() == 6);
    assert("\u{f8ff}\u{fc}\u{ec}\u{a2}"@.len() == 4);
    assert("\u{f8ff}\u{fc}\u{ee}\u{2022}"@[2] == '\u{ee}');
    assert("\u{f8ff}\u{fc}\u{f6}\u{ae}"@[2] == '\u{f6}');
    assert("\u{f8ff}\u{fc}\u{ec}\u{a2}"@[2] == '\u{ec}');
    assert("\u{201a}\u{f6}\u{2020}\u{d4}\u{220f}\u{e8}"@[1] == '\u{f6}');
    assert("\u{201a}\u{d1}\u{3c0}\u{d4}\u{220f}\u{e8}"@[1] == '\u{d1}');
    assert("Sev0"@[3] == '0');
    assert("Sev1"@[3] == '1');
    assert("Sev2"@[3] == '2');
    assert("Sev3"@[3] == '3');
    assert("Sev4"@[3] == '4');
}

/// Law: the condition indicator is a total function with three pairwise
/// distinct symbols: one for `Fired`, one for `Resolved`, one for every
/// other value.
pub proof fn lemma_condition_symbol_total(cond: Seq<char>)
    ensures
        spec_condition_symbol(cond) == "\u{f8ff}\u{fc}\u{ee}\u{a5}"@ || spec_condition_symbol(cond)
            == "\u{201a}\u{fa}\u{d6}"@ || spec_condition_symbol(cond)
            == "\u{f8ff}\u{fc}\u{fc}\u{b0}"@,
        cond != "Fired"@ && cond != "Resolved"@ ==> spec_condition_symbol(cond)
            == "\u{f8ff}\u{fc}\u{fc}\u{b0}"@,
        spec_condition_symbol("Fired"@) != spec_condition_symbol("Resolved"@),
        spec_condition_symbol("Fired"@) != "\u{f8ff}\u{fc}\u{fc}\u{b0}"@,
        spec_condition_symbol("Resolved"@) != "\u{f8ff}\u{fc}\u{fc}\u{b0}"@,
{
    reveal_strlit("Fired");
    reveal_strlit("Resolved");
    reveal_strlit("\u{f8ff}\u{fc}\u{ee}\u{a5}");
    reveal_strlit("\u{201a}\u{fa}\u{d6}");
    reveal_strlit("\u{f8ff}\u{fc}\u{fc}\u{b0}");
    assert("\u{f8ff}\u{fc}\u{ee}\u{a5}"@.len() == 4);
    assert("\u{201a}\u{fa}\u{d6}"@.len() == 3);
    assert("\u{f8ff}\u{fc}\u{fc}\u{b0}"@.len() == 4);
    assert("\u{f8ff}\u{fc}\u{ee}\u{a5}"@[2] == '\u{ee}');
    assert("\u{f8ff}\u{fc}\u{fc}\u{b0}"@[2] == '\u{fc}');
    assert("Fired"@.len() == 5);
    assert("Resolved"@.len() == 8);
}

} // verus!
