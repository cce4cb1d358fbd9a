//! Structural decoding of a JSON document into the alert model.
//!
//! Required fields must be present with the right JSON type, or the whole
//! decode fails with a message naming the field; no partial model is ever
//! produced.  Optional fields tolerate absence (and JSON `null`): they
//! decode to `None`.  Unknown fields are ignored.  Values are taken
//! verbatim; nothing is validated semantically.

use vstd::prelude::*;

use crate::json::{obj_get, spec_obj_get, JsonValue};
use crate::model::{
    AlertContext, AlertContextView, AlertData, AlertDataView, AzureAlert, AzureAlertView,
    Condition, ConditionView, Dimension, DimensionView, Essentials, EssentialsView,
    MetricCondition, MetricConditionView,
};

verus! {

/// The decode error for a required field that the document lacks.
pub open spec fn spec_missing_msg(path: Seq<char>) -> Seq<char> {
    "missing field "@ + path
}

/// The decode error for a field whose JSON type is not the expected one.
pub open spec fn spec_type_msg(path: Seq<char>) -> Seq<char> {
    "field "@ + path + " has the wrong type"@
}

fn missing_msg(path: &str) -> (r: String)
    ensures
        r@ == spec_missing_msg(path@),
{
    let mut m = String::from_str("missing field ");
    m.append(path);
    m
}

fn type_msg(path: &str) -> (r: String)
    ensures
        r@ == spec_type_msg(path@),
{
    let mut m = String::from_str("field ");
    m.append(path);
    m.append(" has the wrong type");
    m
}

/// A required string field: its characters, or the decode error.
pub open spec fn spec_req_str(
    es: Seq<(String, JsonValue)>,
    key: Seq<char>,
    path: Seq<char>,
) -> Result<Seq<char>, Seq<char>> {
    match spec_obj_get(es, key) {
        Option::None => Err(spec_missing_msg(path)),
        Option::Some(v) => match v {
            JsonValue::Str(s) => Ok(s@),
            _ => Err(spec_type_msg(path)),
        },
    }
}

fn req_str(es: &Vec<(String, JsonValue)>, key: &str, path: &str) -> (r: Result<String, String>)
    ensures
        match spec_req_str(es@, key@, path@) {
            Ok(s) => r matches Ok(v) && v@ == s,
            Err(m) => r matches Err(e) && e@ == m,
        },
{
    match obj_get(es, key) {
        Option::None => Err(missing_msg(path)),
        Option::Some(v) => match v {
            JsonValue::Str(s) => Ok(s.clone()),
            _ => Err(type_msg(path)),
        },
    }
}

/// An optional string field: absent or `null` yields nothing.
pub open spec fn spec_opt_str(
    es: Seq<(String, JsonValue)>,
    key: Seq<char>,
    path: Seq<char>,
) -> Result<Option<Seq<char>>, Seq<char>> {
    match spec_obj_get(es, key) {
        Option::None => Ok(Option::None),
        Option::Some(v) => match v {
            JsonValue::Null => Ok(Option::None),
            JsonValue::Str(s) => Ok(Option::Some(s@)),
            _ => Err(spec_type_msg(path)),
        },
    }
}

fn opt_str(es: &Vec<(String, JsonValue)>, key: &str, path: &str) -> (r: Result<
    Option<String>,
    String,
>)
    ensures
        match spec_opt_str(es@, key@, path@) {
            Ok(o) => r matches Ok(v) && v.deep_view() == o,
            Err(m) => r matches Err(e) && e@ == m,
        },
{
    match obj_get(es, key) {
        Option::None => Ok(Option::None),
        Option::Some(v) => match v {
            JsonValue::Null => Ok(Option::None),
            JsonValue::Str(s) => Ok(Option::Some(s.clone())),
            _ => Err(type_msg(path)),
        },
    }
}

/// A required number field: the number's rendered text, or the decode error.
pub open spec fn spec_req_num(
    es: Seq<(String, JsonValue)>,
    key: Seq<char>,
    path: Seq<char>,
) -> Result<Seq<char>, Seq<char>> {
    match spec_obj_get(es, key) {
        Option::None => Err(spec_missing_msg(path)),
        Option::Some(v) => match v {
            JsonValue::Num(s) => Ok(s@),
            _ => Err(spec_type_msg(path)),
        },
    }
}

fn req_num(es: &Vec<(String, JsonValue)>, key: &str, path: &str) -> (r: Result<String, String>)
    ensures
        match spec_req_num(es@, key@, path@) {
            Ok(s) => r matches Ok(v) && v@ == s,
            Err(m) => r matches Err(e) && e@ == m,
        },
{
    match obj_get(es, key) {
        Option::None => Err(missing_msg(path)),
        Option::Some(v) => match v {
            JsonValue::Num(s) => Ok(s.clone()),
            _ => Err(type_msg(path)),
        },
    }
}

/// The elements of an array that must all be strings, e.g. the target ids.
pub open spec fn spec_str_items(items: Seq<JsonValue>, path: Seq<char>) -> Result<
    Seq<Seq<char>>,
    Seq<char>,
>
    decreases items.len(),
{
    if items.len() == 0 {
        Ok(Seq::empty())
    } else {
        match spec_str_items(items.drop_last(), path) {
            Ok(pre) => match items.last() {
                JsonValue::Str(s) => Ok(pre.push(s@)),
                _ => Err(spec_type_msg(path)),
            },
            Err(m) => Err(m),
        }
    }
}

proof fn lemma_str_items_err_const(items: Seq<JsonValue>, path: Seq<char>)
    ensures
        spec_str_items(items, path) is Err ==> spec_str_items(items, path) == Err::<
            Seq<Seq<char>>,
            Seq<char>,
        >(spec_type_msg(path)),
    decreases items.len(),
{
    if items.len() > 0 {
        lemma_str_items_err_const(items.drop_last(), path);
    }
}

proof fn lemma_str_items_bad(items: Seq<JsonValue>, path: Seq<char>, i: int)
    requires
        0 <= i < items.len(),
        !(items[i] is Str),
    ensures
        spec_str_items(items, path) == Err::<Seq<Seq<char>>, Seq<char>>(spec_type_msg(path)),
    decreases items.len(),
{
    if i == items.len() - 1 {
        lemma_str_items_err_const(items.drop_last(), path);
    } else {
        lemma_str_items_bad(items.drop_last(), path, i);
    }
}

fn str_items(items: &Vec<JsonValue>, path: &str) -> (r: Result<Vec<String>, String>)
    ensures
        match spec_str_items(items@, path@) {
            Ok(ss) => r matches Ok(v) && v.deep_view() == ss,
            Err(m) => r matches Err(e) && e@ == m,
        },
{
    let mut out: Vec<String> = Vec::new();
    let n = items.len();
    let mut i: usize = 0;
    proof {
        assert(items@.take(0int) =~= Seq::<JsonValue>::empty());
        assert(out.deep_view() =~= Seq::<Seq<char>>::empty());
    }
    while i < n
        invariant
            n == items@.len(),
            i <= n,
            spec_str_items(items@.take(i as int), path@) == Ok::<Seq<Seq<char>>, Seq<char>>(
                out.deep_view(),
            ),
        decreases n - i,
    {
        let ghost prev = out.deep_view();
        match &items[i] {
            JsonValue::Str(s) => {
                out.push(s.clone());
                proof {
                    assert(out.deep_view() =~= prev.push(s@));
                }
            },
            _ => {
                proof {
                    lemma_str_items_bad(items@, path@, i as int);
                }
                return Err(type_msg(path));
            },
        }
        proof {
            assert(items@.take(i + 1 as int).drop_last() =~= items@.take(i as int));
        }
        i = i + 1;
    }
    proof {
        assert(items@.take(n as int) =~= items@);
    }
    Ok(out)
}

/// One dimension, decoded from an object with `name` and `value` strings.
pub open spec fn spec_decode_dimension(v: JsonValue) -> Result<DimensionView, Seq<char>> {
    match v {
        JsonValue::Obj(es) => {
            let name = spec_req_str(
                es@,
                "name"@,
                "data.alertContext.condition.allOf[].dimensions[].name"@,
            );
            let value = spec_req_str(
                es@,
                "value"@,
                "data.alertContext.condition.allOf[].dimensions[].value"@,
            );
            if name is Err {
                Err(name->Err_0)
            } else if value is Err {
                Err(value->Err_0)
            } else {
                Ok(DimensionView { name: name->Ok_0, value: value->Ok_0 })
            }
        },
        _ => Err(spec_type_msg("data.alertContext.condition.allOf[].dimensions[]"@)),
    }
}

fn decode_dimension(v: &JsonValue) -> (r: Result<Dimension, String>)
    ensures
        match spec_decode_dimension(*v) {
            Ok(dv) => r matches Ok(d) && d@ == dv,
            Err(m) => r matches Err(e) && e@ == m,
        },
{
    match v {
        JsonValue::Obj(es) => {
            let name = match req_str(
                es,
                "name",
                "data.alertContext.condition.allOf[].dimensions[].name",
            ) {
                Ok(s) => s,
                Err(e) => return Err(e),
            };
            let value = match req_str(
                es,
                "value",
                "data.alertContext.condition.allOf[].dimensions[].value",
            ) {
                Ok(s) => s,
                Err(e) => return Err(e),
            };
            Ok(Dimension { name, value })
        },
        _ => Err(type_msg("data.alertContext.condition.allOf[].dimensions[]")),
    }
}

/// The elements of a `dimensions` array, decoded in order.
pub open spec fn spec_dim_items(items: Seq<JsonValue>) -> Result<Seq<DimensionView>, Seq<char>>
    decreases items.len(),
{
    if items.len() == 0 {
        Ok(Seq::empty())
    } else {
        match spec_dim_items(items.drop_last()) {
            Ok(pre) => match spec_decode_dimension(items.last()) {
                Ok(d) => Ok(pre.push(d)),
                Err(m) => Err(m),
            },
            Err(m) => Err(m),
        }
    }
}

proof fn lemma_dim_items_bad(items: Seq<JsonValue>, i: int)
    requires
        0 <= i < items.len(),
        spec_dim_items(items.take(i)) is Ok,
        spec_decode_dimension(items[i]) is Err,
    ensures
        spec_dim_items(items) == Err::<Seq<DimensionView>, Seq<char>>(
            spec_decode_dimension(items[i])->Err_0,
        ),
    decreases items.len(),
{
    if i == items.len() - 1 {
        assert(items.drop_last() =~= items.take(i));
    } else {
        assert(items.drop_last().take(i) =~= items.take(i));
        lemma_dim_items_bad(items.drop_last(), i);
    }
}

fn dim_items(items: &Vec<JsonValue>) -> (r: Result<Vec<Dimension>, String>)
    ensures
        match spec_dim_items(items@) {
            Ok(ds) => r matches Ok(v) && v.deep_view() == ds,
            Err(m) => r matches Err(e) && e@ == m,
        },
{
    let mut out: Vec<Dimension> = Vec::new();
    let n = items.len();
    let mut i: usize = 0;
    proof {
        assert(items@.take(0int) =~= Seq::<JsonValue>::empty());
        assert(out.deep_view() =~= Seq::<DimensionView>::empty());
    }
    while i < n
        invariant
            n == items@.len(),
            i <= n,
            spec_dim_items(items@.take(i as int)) == Ok::<Seq<DimensionView>, Seq<char>>(
                out.deep_view(),
            ),
        decreases n - i,
    {
        let ghost prev = out.deep_view();
        match decode_dimension(&items[i]) {
            Ok(d) => {
                proof {
                    let dv = spec_decode_dimension(items@[i as int])->Ok_0;
                    assert(d@ == dv);
                }
                out.push(d);
                proof {
                    assert(out.deep_view() =~= prev.push(
                        spec_decode_dimension(items@[i as int])->Ok_0,
                    ));
                }
            },
            Err(e) => {
                proof {
                    lemma_dim_items_bad(items@, i as int);
                }
                return Err(e);
            },
        }
        proof {
            assert(items@.take(i + 1 as int).drop_last() =~= items@.take(i as int));
        }
        i = i + 1;
    }
    proof {
        assert(items@.take(n as int) =~= items@);
    }
    Ok(out)
}

/// The optional `dimensions` field of a metric condition.
pub open spec fn spec_opt_dims(es: Seq<(String, JsonValue)>) -> Result<
    Option<Seq<DimensionView>>,
    Seq<char>,
> {
    match spec_obj_get(es, "dimensions"@) {
        Option::None => Ok(Option::None),
        Option::Some(v) => match v {
            JsonValue::Null => Ok(Option::None),
            JsonValue::Arr(items) => match spec_dim_items(items@) {
                Ok(ds) => Ok(Option::Some(ds)),
                Err(m) => Err(m),
            },
            _ => Err(spec_type_msg("data.alertContext.condition.allOf[].dimensions"@)),
        },
    }
}

fn opt_dims(es: &Vec<(String, JsonValue)>) -> (r: Result<Option<Vec<Dimension>>, String>)
    ensures
        match spec_opt_dims(es@) {
            Ok(o) => r matches Ok(v) && v.deep_view() == o,
            Err(m) => r matches Err(e) && e@ == m,
        },
{
    match obj_get(es, "dimensions") {
        Option::None => Ok(Option::None),
        Option::Some(v) => match v {
            JsonValue::Null => Ok(Option::None),
            JsonValue::Arr(items) => match dim_items(items) {
                Ok(ds) => Ok(Option::Some(ds)),
                Err(e) => Err(e),
            },
            _ => Err(type_msg("data.alertContext.condition.allOf[].dimensions")),
        },
    }
}

/// One metric condition, decoded from an object of the `allOf` array.
pub open spec fn spec_decode_metric(v: JsonValue) -> Result<MetricConditionView, Seq<char>> {
    match v {
        JsonValue::Obj(es) => {
            let name = spec_req_str(
                es@,
                "metricName"@,
                "data.alertContext.condition.allOf[].metricName"@,
            );
            let namespace = spec_opt_str(
                es@,
                "metricNamespace"@,
                "data.alertContext.condition.allOf[].metricNamespace"@,
            );
            let operator = spec_req_str(
                es@,
                "operator"@,
                "data.alertContext.condition.allOf[].operator"@,
            );
            let threshold = spec_req_str(
                es@,
                "threshold"@,
                "data.alertContext.condition.allOf[].threshold"@,
            );
            let value = spec_req_num(
                es@,
                "metricValue"@,
                "data.alertContext.condition.allOf[].metricValue"@,
            );
            let aggregation = spec_opt_str(
                es@,
                "timeAggregation"@,
                "data.alertContext.condition.allOf[].timeAggregation"@,
            );
            let dims = spec_opt_dims(es@);
            if name is Err {
                Err(name->Err_0)
            } else if namespace is Err {
                Err(namespace->Err_0)
            } else if operator is Err {
                Err(operator->Err_0)
            } else if threshold is Err {
                Err(threshold->Err_0)
            } else if value is Err {
                Err(value->Err_0)
            } else if aggregation is Err {
                Err(aggregation->Err_0)
            } else if dims is Err {
                Err(dims->Err_0)
            } else {
                Ok(
                    MetricConditionView {
                        metric_name: name->Ok_0,
                        metric_namespace: namespace->Ok_0,
                        operator: operator->Ok_0,
                        threshold: threshold->Ok_0,
                        metric_value: value->Ok_0,
                        time_aggregation: aggregation->Ok_0,
                        dimensions: dims->Ok_0,
                    },
                )
            }
        },
        _ => Err(spec_type_msg("data.alertContext.condition.allOf[]"@)),
    }
}

fn decode_metric(v: &JsonValue) -> (r: Result<MetricCondition, String>)
    ensures
        match spec_decode_metric(*v) {
            Ok(mv) => r matches Ok(m) && m@ == mv,
            Err(msg) => r matches Err(e) && e@ == msg,
        },
{
    match v {
        JsonValue::Obj(es) => {
            let metric_name = match req_str(
                es,
                "metricName",
                "data.alertContext.condition.allOf[].metricName",
            ) {
                Ok(s) => s,
                Err(e) => return Err(e),
            };
            let metric_namespace = match opt_str(
                es,
                "metricNamespace",
                "data.alertContext.condition.allOf[].metricNamespace",
            ) {
                Ok(o) => o,
                Err(e) => return Err(e),
            };
            let operator = match req_str(
                es,
                "operator",
                "data.alertContext.condition.allOf[].operator",
            ) {
                Ok(s) => s,
                Err(e) => return Err(e),
            };
            let threshold = match req_str(
                es,
                "threshold",
                "data.alertContext.condition.allOf[].threshold",
            ) {
                Ok(s) => s,
                Err(e) => return Err(e),
            };
            let metric_value = match req_num(
                es,
                "metricValue",
                "data.alertContext.condition.allOf[].metricValue",
            ) {
                Ok(s) => s,
                Err(e) => return Err(e),
            };
            let time_aggregation = match opt_str(
                es,
                "timeAggregation",
                "data.alertContext.condition.allOf[].timeAggregation",
            ) {
                Ok(o) => o,
                Err(e) => return Err(e),
            };
            let dimensions = match opt_dims(es) {
                Ok(o) => o,
                Err(e) => return Err(e),
            };
            Ok(
                MetricCondition {
                    metric_name,
                    metric_namespace,
                    operator,
                    threshold,
                    metric_value,
                    time_aggregation,
                    dimensions,
                },
            )
        },
        _ => Err(type_msg("data.alertContext.condition.allOf[]")),
    }
}

/// The elements of the `allOf` array, decoded in order.
pub open spec fn spec_metric_items(items: Seq<JsonValue>) -> Result<
    Seq<MetricConditionView>,
    Seq<char>,
>
    decreases items.len(),
{
    if items.len() == 0 {
        Ok(Seq::empty())
    } else {
        match spec_metric_items(items.drop_last()) {
            Ok(pre) => match spec_decode_metric(items.last()) {
                Ok(m) => Ok(pre.push(m)),
                Err(msg) => Err(msg),
            },
            Err(msg) => Err(msg),
        }
    }
}

proof fn lemma_metric_items_bad(items: Seq<JsonValue>, i: int)
    requires
        0 <= i < items.len(),
        spec_metric_items(items.take(i)) is Ok,
        spec_decode_metric(items[i]) is Err,
    ensures
        spec_metric_items(items) == Err::<Seq<MetricConditionView>, Seq<char>>(
            spec_decode_metric(items[i])->Err_0,
        ),
    decreases items.len(),
{
    if i == items.len() - 1 {
        assert(items.drop_last() =~= items.take(i));
    } else {
        assert(items.drop_last().take(i) =~= items.take(i));
        lemma_metric_items_bad(items.drop_last(), i);
    }
}

fn metric_items(items: &Vec<JsonValue>) -> (r: Result<Vec<MetricCondition>, String>)
    ensures
        match spec_metric_items(items@) {
            Ok(ms) => r matches Ok(v) && v.deep_view() == ms,
            Err(msg) => r matches Err(e) && e@ == msg,
        },
{
    let mut out: Vec<MetricCondition> = Vec::new();
    let n = items.len();
    let mut i: usize = 0;
    proof {
        assert(items@.take(0int) =~= Seq::<JsonValue>::empty());
        assert(out.deep_view() =~= Seq::<MetricConditionView>::empty());
    }
    while i < n
        invariant
            n == items@.len(),
            i <= n,
            spec_metric_items(items@.take(i as int)) == Ok::<Seq<MetricConditionView>, Seq<char>>(
                out.deep_view(),
            ),
        decreases n - i,
    {
        let ghost prev = out.deep_view();
        match decode_metric(&items[i]) {
            Ok(m) => {
                out.push(m);
                proof {
                    assert(out.deep_view() =~= prev.push(
                        spec_decode_metric(items@[i as int])->Ok_0,
                    ));
                }
            },
            Err(e) => {
                proof {
                    lemma_metric_items_bad(items@, i as int);
                }
                return Err(e);
            },
        }
        proof {
            assert(items@.take(i + 1 as int).drop_last() =~= items@.take(i as int));
        }
        i = i + 1;
    }
    proof {
        assert(items@.take(n as int) =~= items@);
    }
    Ok(out)
}

/// The `condition` object: the `allOf` array and the optional window size.
pub open spec fn spec_decode_condition(es: Seq<(String, JsonValue)>) -> Result<
    ConditionView,
    Seq<char>,
> {
    let all_of = match spec_obj_get(es, "allOf"@) {
        Option::None => Err(spec_missing_msg("data.alertContext.condition.allOf"@)),
        Option::Some(v) => match v {
            JsonValue::Arr(items) => spec_metric_items(items@),
            _ => Err(spec_type_msg("data.alertContext.condition.allOf"@)),
        },
    };
    let window = spec_opt_str(es, "windowSize"@, "data.alertContext.condition.windowSize"@);
    if all_of is Err {
        Err(all_of->Err_0)
    } else if window is Err {
        Err(window->Err_0)
    } else {
        Ok(ConditionView { all_of: all_of->Ok_0, window_size: window->Ok_0 })
    }
}

fn decode_condition(es: &Vec<(String, JsonValue)>) -> (r: Result<Condition, String>)
    ensures
        match spec_decode_condition(es@) {
            Ok(cv) => r matches Ok(c) && c@ == cv,
            Err(m) => r matches Err(e) && e@ == m,
        },
{
    let all_of = match obj_get(es, "allOf") {
        Option::None => return Err(missing_msg("data.alertContext.condition.allOf")),
        Option::Some(v) => match v {
            JsonValue::Arr(items) => match metric_items(items) {
                Ok(ms) => ms,
                Err(e) => return Err(e),
            },
            _ => return Err(type_msg("data.alertContext.condition.allOf")),
        },
    };
    let window_size = match opt_str(es, "windowSize", "data.alertContext.condition.windowSize") {
        Ok(o) => o,
        Err(e) => return Err(e),
    };
    Ok(Condition { all_of, window_size })
}

/// The `alertContext` object: its condition and the optional condition type.
pub open spec fn spec_decode_context(es: Seq<(String, JsonValue)>) -> Result<
    AlertContextView,
    Seq<char>,
> {
    let condition = match spec_obj_get(es, "condition"@) {
        Option::None => Err(spec_missing_msg("data.alertContext.condition"@)),
        Option::Some(v) => match v {
            JsonValue::Obj(ces) => spec_decode_condition(ces@),
            _ => Err(spec_type_msg("data.alertContext.condition"@)),
        },
    };
    let condition_type = spec_opt_str(es, "conditionType"@, "data.alertContext.conditionType"@);
    if condition is Err {
        Err(condition->Err_0)
    } else if condition_type is Err {
        Err(condition_type->Err_0)
    } else {
        Ok(AlertContextView { condition: condition->Ok_0, condition_type: condition_type->Ok_0 })
    }
}

fn decode_context(es: &Vec<(String, JsonValue)>) -> (r: Result<AlertContext, String>)
    ensures
        match spec_decode_context(es@) {
            Ok(cv) => r matches Ok(c) && c@ == cv,
            Err(m) => r matches Err(e) && e@ == m,
        },
{
    let condition = match obj_get(es, "condition") {
        Option::None => return Err(missing_msg("data.alertContext.condition")),
        Option::Some(v) => match v {
            JsonValue::Obj(ces) => match decode_condition(ces) {
                Ok(c) => c,
                Err(e) => return Err(e),
            },
            _ => return Err(type_msg("data.alertContext.condition")),
        },
    };
    let condition_type = match opt_str(es, "conditionType", "data.alertContext.conditionType") {
        Ok(o) => o,
        Err(e) => return Err(e),
    };
    Ok(AlertContext { condition, condition_type })
}

/// The `essentials` object, field by field.
pub open spec fn spec_decode_essentials(es: Seq<(String, JsonValue)>) -> Result<
    EssentialsView,
    Seq<char>,
> {
    let alert_id = spec_req_str(es, "alertId"@, "data.essentials.alertId"@);
    let alert_rule = spec_req_str(es, "alertRule"@, "data.essentials.alertRule"@);
    let severity = spec_req_str(es, "severity"@, "data.essentials.severity"@);
    let monitor_condition = spec_req_str(
        es,
        "monitorCondition"@,
        "data.essentials.monitorCondition"@,
    );
    let fired_date_time = spec_req_str(es, "firedDateTime"@, "data.essentials.firedDateTime"@);
    let description = spec_opt_str(es, "description"@, "data.essentials.description"@);
    let target_ids = match spec_obj_get(es, "alertTargetIDs"@) {
        Option::None => Err(spec_missing_msg("data.essentials.alertTargetIDs"@)),
        Option::Some(v) => match v {
            JsonValue::Arr(items) => spec_str_items(items@, "data.essentials.alertTargetIDs"@),
            _ => Err(spec_type_msg("data.essentials.alertTargetIDs"@)),
        },
    };
    let resolved = spec_opt_str(es, "resolvedDateTime"@, "data.essentials.resolvedDateTime"@);
    let signal = spec_opt_str(es, "signalType"@, "data.essentials.signalType"@);
    let monitoring = spec_opt_str(es, "monitoringService"@, "data.essentials.monitoringService"@);
    let investigation = spec_opt_str(
        es,
        "investigationLink"@,
        "data.essentials.investigationLink"@,
    );
    if alert_id is Err {
        Err(alert_id->Err_0)
    } else if alert_rule is Err {
        Err(alert_rule->Err_0)
    } else if severity is Err {
        Err(severity->Err_0)
    } else if monitor_condition is Err {
        Err(monitor_condition->Err_0)
    } else if fired_date_time is Err {
        Err(fired_date_time->Err_0)
    } else if description is Err {
        Err(description->Err_0)
    } else if target_ids is Err {
        Err(target_ids->Err_0)
    } else if resolved is Err {
        Err(resolved->Err_0)
    } else if signal is Err {
        Err(signal->Err_0)
    } else if monitoring is Err {
        Err(monitoring->Err_0)
    } else if investigation is Err {
        Err(investigation->Err_0)
    } else {
        Ok(
            EssentialsView {
                alert_id: alert_id->Ok_0,
                alert_rule: alert_rule->Ok_0,
                severity: severity->Ok_0,
                monitor_condition: monitor_condition->Ok_0,
                fired_date_time: fired_date_time->Ok_0,
                description: description->Ok_0,
                alert_target_ids: target_ids->Ok_0,
                resolved_date_time: resolved->Ok_0,
                signal_type: signal->Ok_0,
                monitoring_service: monitoring->Ok_0,
                investigation_link: investigation->Ok_0,
            },
        )
    }
}

fn decode_essentials(es: &Vec<(String, JsonValue)>) -> (r: Result<Essentials, String>)
    ensures
        match spec_decode_essentials(es@) {
            Ok(ev) => r matches Ok(e) && e@ == ev,
            Err(m) => r matches Err(e) && e@ == m,
        },
{
    let alert_id = match req_str(es, "alertId", "data.essentials.alertId") {
        Ok(s) => s,
        Err(e) => return Err(e),
    };
    let alert_rule = match req_str(es, "alertRule", "data.essentials.alertRule") {
        Ok(s) => s,
        Err(e) => return Err(e),
    };
    let severity = match req_str(es, "severity", "data.essentials.severity") {
        Ok(s) => s,
        Err(e) => return Err(e),
    };
    let monitor_condition = match req_str(
        es,
        "monitorCondition",
        "data.essentials.monitorCondition",
    ) {
        Ok(s) => s,
        Err(e) => return Err(e),
    };
    let fired_date_time = match req_str(es, "firedDateTime", "data.essentials.firedDateTime") {
        Ok(s) => s,
        Err(e) => return Err(e),
    };
    let description = match opt_str(es, "description", "data.essentials.description") {
        Ok(o) => o,
        Err(e) => return Err(e),
    };
    let alert_target_ids = match obj_get(es, "alertTargetIDs") {
        Option::None => return Err(missing_msg("data.essentials.alertTargetIDs")),
        Option::Some(v) => match v {
            JsonValue::Arr(items) => match str_items(items, "data.essentials.alertTargetIDs") {
                Ok(ss) => ss,
                Err(e) => return Err(e),
            },
            _ => return Err(type_msg("data.essentials.alertTargetIDs")),
        },
    };
    let resolved_date_time = match opt_str(
        es,
        "resolvedDateTime",
        "data.essentials.resolvedDateTime",
    ) {
        Ok(o) => o,
        Err(e) => return Err(e),
    };
    let signal_type = match opt_str(es, "signalType", "data.essentials.signalType") {
        Ok(o) => o,
        Err(e) => return Err(e),
    };
    let monitoring_service = match opt_str(
        es,
        "monitoringService",
        "data.essentials.monitoringService",
    ) {
        Ok(o) => o,
        Err(e) => return Err(e),
    };
    let investigation_link = match opt_str(
        es,
        "investigationLink",
        "data.essentials.investigationLink",
    ) {
        Ok(o) => o,
        Err(e) => return Err(e),
    };
    Ok(
        Essentials {
            alert_id,
            alert_rule,
            severity,
            monitor_condition,
            fired_date_time,
            description,
            alert_target_ids,
            resolved_date_time,
            signal_type,
            monitoring_service,
            investigation_link,
        },
    )
}

/// The `data` object: essentials and alert context.
pub open spec fn spec_decode_data(es: Seq<(String, JsonValue)>) -> Result<
    AlertDataView,
    Seq<char>,
> {
    let essentials = match spec_obj_get(es, "essentials"@) {
        Option::None => Err(spec_missing_msg("data.essentials"@)),
        Option::Some(v) => match v {
            JsonValue::Obj(ees) => spec_decode_essentials(ees@),
            _ => Err(spec_type_msg("data.essentials"@)),
        },
    };
    let context = match spec_obj_get(es, "alertContext"@) {
        Option::None => Err(spec_missing_msg("data.alertContext"@)),
        Option::Some(v) => match v {
            JsonValue::Obj(ces) => spec_decode_context(ces@),
            _ => Err(spec_type_msg("data.alertContext"@)),
        },
    };
    if essentials is Err {
        Err(essentials->Err_0)
    } else if context is Err {
        Err(context->Err_0)
    } else {
        Ok(AlertDataView { essentials: essentials->Ok_0, alert_context: context->Ok_0 })
    }
}

fn decode_data(es: &Vec<(String, JsonValue)>) -> (r: Result<AlertData, String>)
    ensures
        match spec_decode_data(es@) {
            Ok(dv) => r matches Ok(d) && d@ == dv,
            Err(m) => r matches Err(e) && e@ == m,
        },
{
    let essentials = match obj_get(es, "essentials") {
        Option::None => return Err(missing_msg("data.essentials")),
        Option::Some(v) => match v {
            JsonValue::Obj(ees) => match decode_essentials(ees) {
                Ok(x) => x,
                Err(e) => return Err(e),
            },
            _ => return Err(type_msg("data.essentials")),
        },
    };
    let alert_context = match obj_get(es, "alertContext") {
        Option::None => return Err(missing_msg("data.alertContext")),
        Option::Some(v) => match v {
            JsonValue::Obj(ces) => match decode_context(ces) {
                Ok(x) => x,
                Err(e) => return Err(e),
            },
            _ => return Err(type_msg("data.alertContext")),
        },
    };
    Ok(AlertData { essentials, alert_context })
}

/// What decoding a JSON document as an alert yields: the model's view, or
/// the message naming the first offending field.
pub open spec fn spec_decode(doc: JsonValue) -> Result<AzureAlertView, Seq<char>> {
    match doc {
        JsonValue::Obj(root) => {
            let schema_id = spec_req_str(root@, "schemaId"@, "schemaId"@);
            let data = match spec_obj_get(root@, "data"@) {
                Option::None => Err(spec_missing_msg("data"@)),
                Option::Some(v) => match v {
                    JsonValue::Obj(des) => spec_decode_data(des@),
                    _ => Err(spec_type_msg("data"@)),
                },
            };
            if schema_id is Err {
                Err(schema_id->Err_0)
            } else if data is Err {
                Err(data->Err_0)
            } else {
                Ok(AzureAlertView { schema_id: schema_id->Ok_0, data: data->Ok_0 })
            }
        },
        _ => Err("payload is not a JSON object"@),
    }
}

/// Decodes a JSON document into the alert model, or fails with a message
/// naming the first required field that is missing or mistyped.
pub fn decode_alert(doc: &JsonValue) -> (r: Result<AzureAlert, String>)
    ensures
        match spec_decode(*doc) {
            Ok(av) => r matches Ok(a) && a@ == av,
            Err(m) => r matches Err(e) && e@ == m,
        },
{
    match doc {
        JsonValue::Obj(root) => {
            let schema_id = match req_str(root, "schemaId", "schemaId") {
                Ok(s) => s,
                Err(e) => return Err(e),
            };
            let data = match obj_get(root, "data") {
                Option::None => return Err(missing_msg("data")),
                Option::Some(v) => match v {
                    JsonValue::Obj(des) => match decode_data(des) {
                        Ok(d) => d,
                        Err(e) => return Err(e),
                    },
                    _ => return Err(type_msg("data")),
                },
            };
            Ok(AzureAlert { schema_id, data })
        },
        _ => Err(String::from_str("payload is not a JSON object")),
    }
}

/// A field that is present with a string value.
pub open spec fn spec_has_str(es: Seq<(String, JsonValue)>, key: Seq<char>) -> bool {
    spec_obj_get(es, key) matches Some(JsonValue::Str(_))
}

/// A field that is absent, `null`, or a string.
pub open spec fn spec_str_or_absent(es: Seq<(String, JsonValue)>, key: Seq<char>) -> bool {
    match spec_obj_get(es, key) {
        Option::None => true,
        Option::Some(v) => v is Str || v is Null,
    }
}

/// A well-formed dimension object: `name` and `value` present as strings.
pub open spec fn spec_dim_wf(v: JsonValue) -> bool {
    &&& v is Obj
    &&& spec_has_str(v->Obj_0@, "name"@)
    &&& spec_has_str(v->Obj_0@, "value"@)
}

/// A well-formed metric condition object: the required fields present with
/// the right JSON types, the optional ones absent, `null`, or rightly typed.
pub open spec fn spec_metric_wf(v: JsonValue) -> bool {
    &&& v is Obj
    &&& spec_has_str(v->Obj_0@, "metricName"@)
    &&& spec_str_or_absent(v->Obj_0@, "metricNamespace"@)
    &&& spec_has_str(v->Obj_0@, "operator"@)
    &&& spec_has_str(v->Obj_0@, "threshold"@)
    &&& (spec_obj_get(v->Obj_0@, "metricValue"@) matches Some(JsonValue::Num(_)))
    &&& spec_str_or_absent(v->Obj_0@, "timeAggregation"@)
    &&& match spec_obj_get(v->Obj_0@, "dimensions"@) {
        Option::None => true,
        Option::Some(d) => d is Null || (d matches JsonValue::Arr(items) && forall|j: int|
            0 <= j < items@.len() ==> spec_dim_wf(#[trigger] items@[j])),
    }
}

/// A well-formed essentials object.
pub open spec fn spec_essentials_wf(es: Seq<(String, JsonValue)>) -> bool {
    &&& spec_has_str(es, "alertId"@)
    &&& spec_has_str(es, "alertRule"@)
    &&& spec_has_str(es, "severity"@)
    &&& spec_has_str(es, "monitorCondition"@)
    &&& spec_has_str(es, "firedDateTime"@)
    &&& spec_str_or_absent(es, "description"@)
    &&& (spec_obj_get(es, "alertTargetIDs"@) matches Some(JsonValue::Arr(items)) && forall|j: int|
        0 <= j < items@.len() ==> #[trigger] items@[j] is Str)
    &&& spec_str_or_absent(es, "resolvedDateTime"@)
    &&& spec_str_or_absent(es, "signalType"@)
    &&& spec_str_or_absent(es, "monitoringService"@)
    &&& spec_str_or_absent(es, "investigationLink"@)
}

/// A well-formed condition object: `allOf` an array of well-formed metric
/// conditions, the window size optional.
pub open spec fn spec_condition_wf(es: Seq<(String, JsonValue)>) -> bool {
    &&& (spec_obj_get(es, "allOf"@) matches Some(JsonValue::Arr(items)) && forall|j: int|
        0 <= j < items@.len() ==> spec_metric_wf(#[trigger] items@[j]))
    &&& spec_str_or_absent(es, "windowSize"@)
}

/// A well-formed alert context object.
pub open spec fn spec_context_wf(es: Seq<(String, JsonValue)>) -> bool {
    &&& (spec_obj_get(es, "condition"@) matches Some(JsonValue::Obj(ces)) && spec_condition_wf(
        ces@,
    ))
    &&& spec_str_or_absent(es, "conditionType"@)
}

/// A well-formed `data` object.
pub open spec fn spec_data_wf(es: Seq<(String, JsonValue)>) -> bool {
    &&& (spec_obj_get(es, "essentials"@) matches Some(JsonValue::Obj(ees)) && spec_essentials_wf(
        ees@,
    ))
    &&& (spec_obj_get(es, "alertContext"@) matches Some(JsonValue::Obj(ces)) && spec_context_wf(
        ces@,
    ))
}

/// A well-formed alert document: every required field of the schema present
/// with the right JSON type, every optional field absent, `null`, or
/// rightly typed.
pub open spec fn spec_alert_wf(doc: JsonValue) -> bool {
    &&& doc is Obj
    &&& spec_has_str(doc->Obj_0@, "schemaId"@)
    &&& (spec_obj_get(doc->Obj_0@, "data"@) matches Some(JsonValue::Obj(des)) && spec_data_wf(
        des@,
    ))
}

proof fn lemma_str_items_ok(items: Seq<JsonValue>, path: Seq<char>)
    ensures
        spec_str_items(items, path) is Ok <==> (forall|j: int|
            0 <= j < items.len() ==> #[trigger] items[j] is Str),
        spec_str_items(items, path) is Ok ==> {
            let ss = spec_str_items(items, path)->Ok_0;
            &&& ss.len() == items.len()
            &&& forall|j: int| 0 <= j < items.len() ==> #[trigger] ss[j] == items[j]->Str_0@
        },
    decreases items.len(),
{
    if items.len() > 0 {
        let pre = items.drop_last();
        lemma_str_items_ok(pre, path);
        assert(forall|j: int| 0 <= j < pre.len() ==> #[trigger] pre[j] == items[j]);
        if forall|j: int| 0 <= j < items.len() ==> #[trigger] items[j] is Str {
            assert(forall|j: int| 0 <= j < pre.len() ==> #[trigger] pre[j] is Str);
            assert(items[items.len() - 1] is Str);
            assert(spec_str_items(items, path) is Ok);
        }
        if spec_str_items(items, path) is Ok {
            assert(spec_str_items(pre, path) is Ok);
            assert(items.last() is Str);
            assert(forall|j: int| 0 <= j < items.len() ==> #[trigger] items[j] is Str) by {
                assert(forall|j: int| 0 <= j < pre.len() ==> #[trigger] pre[j] is Str);
                assert(forall|j: int| 0 <= j < pre.len() ==> pre[j] == #[trigger] items[j]);
            }
        }
    }
}

proof fn lemma_dim_items_ok(items: Seq<JsonValue>)
    ensures
        spec_dim_items(items) is Ok <==> (forall|j: int|
            0 <= j < items.len() ==> spec_dim_wf(#[trigger] items[j])),
        spec_dim_items(items) is Ok ==> {
            let ds = spec_dim_items(items)->Ok_0;
            &&& ds.len() == items.len()
            &&& forall|j: int|
                0 <= j < items.len() ==> #[trigger] ds[j] == spec_decode_dimension(items[j])->Ok_0
        },
    decreases items.len(),
{
    if items.len() > 0 {
        let pre = items.drop_last();
        lemma_dim_items_ok(pre);
        assert(forall|j: int| 0 <= j < pre.len() ==> #[trigger] pre[j] == items[j]);
        if forall|j: int| 0 <= j < items.len() ==> spec_dim_wf(#[trigger] items[j]) {
            assert(forall|j: int| 0 <= j < pre.len() ==> spec_dim_wf(#[trigger] pre[j]));
            assert(spec_dim_wf(items[items.len() - 1]));
            assert(spec_dim_items(items) is Ok);
        }
        if spec_dim_items(items) is Ok {
            assert(spec_dim_items(pre) is Ok);
            assert(spec_dim_wf(items.last()));
            assert(forall|j: int| 0 <= j < items.len() ==> spec_dim_wf(#[trigger] items[j])) by {
                assert(forall|j: int| 0 <= j < pre.len() ==> spec_dim_wf(#[trigger] pre[j]));
                assert(forall|j: int| 0 <= j < pre.len() ==> pre[j] == #[trigger] items[j]);
            }
        }
    }
}

proof fn lemma_decode_metric_ok(v: JsonValue)
    ensures
        spec_decode_metric(v) is Ok <==> spec_metric_wf(v),
{
    if v is Obj {
        match spec_obj_get(v->Obj_0@, "dimensions"@) {
            Option::Some(d) => {
                if d is Arr {
                    lemma_dim_items_ok(d->Arr_0@);
                }
            },
            Option::None => {},
        }
    }
}

proof fn lemma_metric_items_ok(items: Seq<JsonValue>)
    ensures
        spec_metric_items(items) is Ok <==> (forall|j: int|
            0 <= j < items.len() ==> spec_metric_wf(#[trigger] items[j])),
        spec_metric_items(items) is Ok ==> {
            let ms = spec_metric_items(items)->Ok_0;
            &&& ms.len() == items.len()
            &&& forall|j: int|
                0 <= j < items.len() ==> #[trigger] ms[j] == spec_decode_metric(items[j])->Ok_0
        },
    decreases items.len(),
{
    if items.len() > 0 {
        let pre = items.drop_last();
        lemma_metric_items_ok(pre);
        lemma_decode_metric_ok(items.last());
        assert(forall|j: int| 0 <= j < pre.len() ==> #[trigger] pre[j] == items[j]);
        if forall|j: int| 0 <= j < items.len() ==> spec_metric_wf(#[trigger] items[j]) {
            assert(forall|j: int| 0 <= j < pre.len() ==> spec_metric_wf(#[trigger] pre[j]));
            assert(spec_metric_wf(items[items.len() - 1]));
            assert(spec_metric_items(items) is Ok);
        }
        if spec_metric_items(items) is Ok {
            assert(spec_metric_items(pre) is Ok);
            assert(spec_metric_wf(items.last()));
            assert(forall|j: int| 0 <= j < items.len() ==> spec_metric_wf(#[trigger] items[j]))
                by {
                assert(forall|j: int| 0 <= j < pre.len() ==> spec_metric_wf(#[trigger] pre[j]));
                assert(forall|j: int| 0 <= j < pre.len() ==> pre[j] == #[trigger] items[j]);
            }
        }
    }
}

/// Law: decoding succeeds exactly on the well-formed documents — those
/// whose required fields are all present with the right JSON types and
/// whose optional fields are absent, `null`, or rightly typed.
pub proof fn lemma_decode_total(doc: JsonValue)
    ensures
        spec_decode(doc) is Ok <==> spec_alert_wf(doc),
{
    if doc is Obj {
        let root = doc->Obj_0@;
        match spec_obj_get(root, "data"@) {
            Option::Some(d) => {
                if d is Obj {
                    let des = d->Obj_0@;
                    match spec_obj_get(des, "essentials"@) {
                        Option::Some(e) => {
                            if e is Obj {
                                match spec_obj_get(e->Obj_0@, "alertTargetIDs"@) {
                                    Option::Some(t) => {
                                        if t is Arr {
                                            lemma_str_items_ok(
                                                t->Arr_0@,
                                                "data.essentials.alertTargetIDs"@,
                                            );
                                        }
                                    },
                                    Option::None => {},
                                }
                            }
                        },
                        Option::None => {},
                    }
                    match spec_obj_get(des, "alertContext"@) {
                        Option::Some(c) => {
                            if c is Obj {
                                match spec_obj_get(c->Obj_0@, "condition"@) {
                                    Option::Some(cc) => {
                                        if cc is Obj {
                                            match spec_obj_get(cc->Obj_0@, "allOf"@) {
                                                Option::Some(ao) => {
                                                    if ao is Arr {
                                                        lemma_metric_items_ok(ao->Arr_0@);
                                                    }
                                                },
                                                Option::None => {},
                                            }
                                        }
                                    },
                                    Option::None => {},
                                }
                            }
                        },
                        Option::None => {},
                    }
                }
            },
            Option::None => {},
        }
    }
}

/// Law: a well-formed metric object decodes with its required fields taken
/// verbatim, and optional fields absent in the object are absent in the
/// model.
pub proof fn lemma_metric_round_trip(v: JsonValue)
    requires
        spec_metric_wf(v),
    ensures
        spec_decode_metric(v) is Ok,
        ({
            let m = spec_decode_metric(v)->Ok_0;
            let es = v->Obj_0@;
            &&& m.metric_name == spec_obj_get(es, "metricName"@)->0->Str_0@
            &&& m.operator == spec_obj_get(es, "operator"@)->0->Str_0@
            &&& m.threshold == spec_obj_get(es, "threshold"@)->0->Str_0@
            &&& m.metric_value == spec_obj_get(es, "metricValue"@)->0->Num_0@
            &&& spec_obj_get(es, "metricNamespace"@) is None ==> m.metric_namespace is None
            &&& spec_obj_get(es, "timeAggregation"@) is None ==> m.time_aggregation is None
            &&& spec_obj_get(es, "dimensions"@) is None ==> m.dimensions is None
        }),
{
    lemma_decode_metric_ok(v);
}

/// Law: decoding a well-formed document succeeds and round-trips every
/// required field verbatim — no loss, no coercion — while optional fields
/// absent in the document are absent in the model, not defaulted.
pub proof fn lemma_decode_round_trip(doc: JsonValue)
    requires
        spec_alert_wf(doc),
    ensures
        spec_decode(doc) is Ok,
        ({
            let a = spec_decode(doc)->Ok_0;
            let root = doc->Obj_0@;
            let des = spec_obj_get(root, "data"@)->0->Obj_0@;
            let ees = spec_obj_get(des, "essentials"@)->0->Obj_0@;
            let ces = spec_obj_get(des, "alertContext"@)->0->Obj_0@;
            let cond = spec_obj_get(ces, "condition"@)->0->Obj_0@;
            let targets = spec_obj_get(ees, "alertTargetIDs"@)->0->Arr_0@;
            let metrics = spec_obj_get(cond, "allOf"@)->0->Arr_0@;
            &&& a.schema_id == spec_obj_get(root, "schemaId"@)->0->Str_0@
            &&& a.data.essentials.alert_id == spec_obj_get(ees, "alertId"@)->0->Str_0@
            &&& a.data.essentials.alert_rule == spec_obj_get(ees, "alertRule"@)->0->Str_0@
            &&& a.data.essentials.severity == spec_obj_get(ees, "severity"@)->0->Str_0@
            &&& a.data.essentials.monitor_condition == spec_obj_get(
                ees,
                "monitorCondition"@,
            )->0->Str_0@
            &&& a.data.essentials.fired_date_time == spec_obj_get(
                ees,
                "firedDateTime"@,
            )->0->Str_0@
            &&& a.data.essentials.alert_target_ids.len() == targets.len()
            &&& forall|j: int|
                0 <= j < targets.len() ==> #[trigger] a.data.essentials.alert_target_ids[j]
                    == targets[j]->Str_0@
            &&& spec_obj_get(ees, "description"@) is None ==> a.data.essentials.description is None
            &&& spec_obj_get(ees, "resolvedDateTime"@) is None
                ==> a.data.essentials.resolved_date_time is None
            &&& spec_obj_get(ees, "signalType"@) is None ==> a.data.essentials.signal_type is None
            &&& spec_obj_get(ees, "monitoringService"@) is None
                ==> a.data.essentials.monitoring_service is None
            &&& spec_obj_get(ees, "investigationLink"@) is None
                ==> a.data.essentials.investigation_link is None
            &&& spec_obj_get(ces, "conditionType"@) is None
                ==> a.data.alert_context.condition_type is None
            &&& spec_obj_get(cond, "windowSize"@) is None
                ==> a.data.alert_context.condition.window_size is None
            &&& a.data.alert_context.condition.all_of.len() == metrics.len()
            &&& forall|j: int|
                0 <= j < metrics.len() ==> #[trigger] a.data.alert_context.condition.all_of[j]
                    == spec_decode_metric(metrics[j])->Ok_0
        }),
{
    lemma_decode_total(doc);
    let root = doc->Obj_0@;
    let des = spec_obj_get(root, "data"@)->0->Obj_0@;
    let ees = spec_obj_get(des, "essentials"@)->0->Obj_0@;
    let ces = spec_obj_get(des, "alertContext"@)->0->Obj_0@;
    let cond = spec_obj_get(ces, "condition"@)->0->Obj_0@;
    lemma_str_items_ok(
        spec_obj_get(ees, "alertTargetIDs"@)->0->Arr_0@,
        "data.essentials.alertTargetIDs"@,
    );
    lemma_metric_items_ok(spec_obj_get(cond, "allOf"@)->0->Arr_0@);
}

} // verus!
