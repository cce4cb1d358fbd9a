use alert_relay::decode::decode_alert;
use alert_relay::json::parse_json;
use alert_relay::model::{
    AlertContext, AlertData, AzureAlert, Condition, Dimension, Essentials, MetricCondition,
};
use alert_relay::payload::build_payload;
use alert_relay::relay::{conclude_relay, plan_relay, RelayPlan};
use alert_relay::render::format_alert_message;

const SYM_SEV0: &str = "\u{f8ff}\u{fc}\u{ee}\u{2022}";
const SYM_SEV1: &str = "\u{f8ff}\u{fc}\u{f6}\u{ae}";
const SYM_SEV2: &str = "\u{201a}\u{f6}\u{2020}\u{d4}\u{220f}\u{e8}";
const SYM_SEV3: &str = "\u{201a}\u{d1}\u{3c0}\u{d4}\u{220f}\u{e8}";
const SYM_SEV4: &str = "\u{f8ff}\u{fc}\u{ec}\u{a2}";
const SYM_FIRED: &str = "\u{f8ff}\u{fc}\u{ee}\u{a5}";
const SYM_RESOLVED: &str = "\u{201a}\u{fa}\u{d6}";
const SYM_OTHER: &str = "\u{f8ff}\u{fc}\u{fc}\u{b0}";

const SAMPLE: &str = r#"
        {
  "schemaId": "azureMonitorCommonAlertSchema",
  "data": {
    "essentials": {
      "alertId": "/subscriptions/<subscription ID>/providers/Microsoft.AlertsManagement/alerts/aaaa0a0a-bb1b-cc2c-dd3d-eeeeee4e4e4e",
      "alertRule": "WCUS-R2-Gen2",
      "severity": "Sev2",
      "signalType": "Metric",
      "monitorCondition": "Fired",
      "monitoringService": "Platform",
      "alertTargetIDs": [
        "/subscriptions/<subscription ID>/resourcegroups/pipelinealertrg/providers/microsoft.compute/virtualmachines/wcus-r2-gen2"
      ],
      "configurationItems": [
        "wcus-r2-gen2"
      ],
      "originAlertId": "3f2d4487-b0fc-4125-8bd5-7ad17384221e_PipeLineAlertRG_microsoft.insights_metricAlerts_WCUS-R2-Gen2_-117781227",
      "firedDateTime": "2019-03-22T13:58:24.3713213Z",
      "resolvedDateTime": "2019-03-22T14:03:16.2246313Z",
      "description": "Too many requests",
      "essentialsVersion": "1.0",
      "alertContextVersion": "1.0"
    },
    "alertContext": {
      "properties": null,
      "conditionType": "SingleResourceMultipleMetricCriteria",
      "condition": {
        "windowSize": "PT5M",
        "allOf": [
          {
            "metricName": "Percentage CPU",
            "metricNamespace": "Microsoft.Compute/virtualMachines",
            "operator": "GreaterThan",
            "threshold": "25",
            "timeAggregation": "Average",
            "dimensions": [
              {
                "name": "ResourceId",
                "value": "3efad9dc-3d50-4eac-9c87-8b3fd6f97e4e"
              }
            ],
            "metricValue": 7.727
          }
        ]
      }
    },
    "customProperties": {
      "Key1": "Value1",
      "Key2": "Value2"
    }
  }
}"#;

fn decode_sample() -> AzureAlert {
    let doc = parse_json(SAMPLE.as_bytes()).unwrap();
    decode_alert(&doc).unwrap()
}

fn sample_alert(severity: &str, monitor_condition: &str, target_ids: Vec<String>) -> AzureAlert {
    AzureAlert {
        schema_id: String::from("azureMonitorCommonAlertSchema"),
        data: AlertData {
            essentials: Essentials {
                alert_id: String::from("id-1"),
                alert_rule: String::from("Rule"),
                severity: String::from(severity),
                monitor_condition: String::from(monitor_condition),
                fired_date_time: String::from("2019-03-22T13:58:24.3713213Z"),
                description: None,
                alert_target_ids: target_ids,
                resolved_date_time: None,
                signal_type: None,
                monitoring_service: None,
                investigation_link: None,
            },
            alert_context: AlertContext {
                condition: Condition { all_of: vec![], window_size: None },
                condition_type: None,
            },
        },
    }
}

#[test]
fn test_azure_alert_parsing() {
    let alert = decode_sample();

    assert_eq!(alert.data.essentials.alert_rule, "WCUS-R2-Gen2");
    assert_eq!(alert.get_resource_name(), "wcus-r2-gen2");
    assert_eq!(alert.get_severity_emoji(), SYM_SEV2);
    assert_eq!(alert.get_condition_emoji(), SYM_FIRED);
    assert!(!alert.is_resolved());
}

#[test]
fn decode_round_trips_required_fields() {
    let alert = decode_sample();
    assert_eq!(alert.schema_id, "azureMonitorCommonAlertSchema");
    assert_eq!(
        alert.data.essentials.alert_id,
        "/subscriptions/<subscription ID>/providers/Microsoft.AlertsManagement/alerts/aaaa0a0a-bb1b-cc2c-dd3d-eeeeee4e4e4e"
    );
    assert_eq!(alert.data.essentials.alert_rule, "WCUS-R2-Gen2");
    assert_eq!(alert.data.essentials.severity, "Sev2");
    assert_eq!(alert.data.essentials.monitor_condition, "Fired");
    assert_eq!(alert.data.essentials.fired_date_time, "2019-03-22T13:58:24.3713213Z");
    assert_eq!(alert.data.essentials.alert_target_ids.len(), 1);
    assert_eq!(
        alert.data.essentials.alert_target_ids[0],
        "/subscriptions/<subscription ID>/resourcegroups/pipelinealertrg/providers/microsoft.compute/virtualmachines/wcus-r2-gen2"
    );
    assert_eq!(alert.data.essentials.description.as_deref(), Some("Too many requests"));
    assert_eq!(
        alert.data.essentials.resolved_date_time.as_deref(),
        Some("2019-03-22T14:03:16.2246313Z")
    );
    assert_eq!(alert.data.essentials.signal_type.as_deref(), Some("Metric"));
    assert_eq!(alert.data.essentials.monitoring_service.as_deref(), Some("Platform"));
    assert_eq!(alert.data.essentials.investigation_link, None);
    assert_eq!(
        alert.data.alert_context.condition_type.as_deref(),
        Some("SingleResourceMultipleMetricCriteria")
    );
    assert_eq!(alert.data.alert_context.condition.window_size.as_deref(), Some("PT5M"));
    let all_of = &alert.data.alert_context.condition.all_of;
    assert_eq!(all_of.len(), 1);
    assert_eq!(all_of[0].metric_name, "Percentage CPU");
    assert_eq!(all_of[0].metric_namespace.as_deref(), Some("Microsoft.Compute/virtualMachines"));
    assert_eq!(all_of[0].operator, "GreaterThan");
    assert_eq!(all_of[0].threshold, "25");
    assert_eq!(all_of[0].metric_value, "7.727");
    assert_eq!(all_of[0].time_aggregation.as_deref(), Some("Average"));
    let dims = all_of[0].dimensions.as_ref().unwrap();
    assert_eq!(dims.len(), 1);
    assert_eq!(dims[0].name, "ResourceId");
    assert_eq!(dims[0].value, "3efad9dc-3d50-4eac-9c87-8b3fd6f97e4e");
}

#[test]
fn decode_leaves_absent_optionals_absent() {
    let json = r#"{
      "schemaId": "s",
      "data": {
        "essentials": {
          "alertId": "a", "alertRule": "r", "severity": "Sev1",
          "monitorCondition": "Fired", "firedDateTime": "t",
          "alertTargetIDs": []
        },
        "alertContext": {
          "condition": {
            "allOf": [
              { "metricName": "m", "operator": "GreaterThan",
                "threshold": "1", "metricValue": 2 }
            ]
          }
        }
      }
    }"#;
    let doc = parse_json(json.as_bytes()).unwrap();
    let alert = decode_alert(&doc).unwrap();
    assert_eq!(alert.data.essentials.description, None);
    assert_eq!(alert.data.essentials.resolved_date_time, None);
    assert_eq!(alert.data.essentials.signal_type, None);
    assert_eq!(alert.data.essentials.monitoring_service, None);
    assert_eq!(alert.data.essentials.investigation_link, None);
    assert_eq!(alert.data.alert_context.condition_type, None);
    assert_eq!(alert.data.alert_context.condition.window_size, None);
    let metric = &alert.data.alert_context.condition.all_of[0];
    assert_eq!(metric.metric_namespace, None);
    assert_eq!(metric.time_aggregation, None);
    assert!(metric.dimensions.is_none());
    assert_eq!(metric.metric_value, "2");
}

#[test]
fn decode_treats_null_optionals_as_absent() {
    let json = r#"{
      "schemaId": "s",
      "data": {
        "essentials": {
          "alertId": "a", "alertRule": "r", "severity": "Sev1",
          "monitorCondition": "Fired", "firedDateTime": "t",
          "description": null,
          "alertTargetIDs": []
        },
        "alertContext": { "condition": { "allOf": [] } }
      }
    }"#;
    let doc = parse_json(json.as_bytes()).unwrap();
    let alert = decode_alert(&doc).unwrap();
    assert_eq!(alert.data.essentials.description, None);
}

#[test]
fn resource_name_takes_last_segment() {
    let alert = sample_alert(
        "Sev2",
        "Fired",
        vec![String::from("/subscriptions/x/resourceGroups/y/providers/p/virtualMachines/z")],
    );
    assert_eq!(alert.get_resource_name(), "z");
}

#[test]
fn resource_name_unknown_without_target_ids() {
    let alert = sample_alert("Sev2", "Fired", vec![]);
    assert_eq!(alert.get_resource_name(), "Unknown");
}

#[test]
fn resource_name_without_slash_is_the_id_itself() {
    let alert = sample_alert("Sev2", "Fired", vec![String::from("just-a-name")]);
    assert_eq!(alert.get_resource_name(), "just-a-name");
}

#[test]
fn severity_indicator_is_total_with_five_symbols() {
    let cases = [
        ("Sev0", SYM_SEV0),
        ("Sev1", SYM_SEV1),
        ("Sev2", SYM_SEV2),
        ("Sev3", SYM_SEV3),
        ("Sev4", SYM_SEV4),
        ("Sev5", SYM_SEV4),
        ("", SYM_SEV4),
        ("anything else", SYM_SEV4),
    ];
    for (severity, expected) in cases {
        let alert = sample_alert(severity, "Fired", vec![]);
        assert_eq!(alert.get_severity_emoji(), expected);
    }
    assert_ne!(SYM_SEV0, SYM_SEV1);
    assert_ne!(SYM_SEV0, SYM_SEV2);
    assert_ne!(SYM_SEV0, SYM_SEV3);
    assert_ne!(SYM_SEV0, SYM_SEV4);
    assert_ne!(SYM_SEV1, SYM_SEV2);
    assert_ne!(SYM_SEV1, SYM_SEV3);
    assert_ne!(SYM_SEV1, SYM_SEV4);
    assert_ne!(SYM_SEV2, SYM_SEV3);
    assert_ne!(SYM_SEV2, SYM_SEV4);
    assert_ne!(SYM_SEV3, SYM_SEV4);
}

#[test]
fn condition_indicator_has_three_distinct_symbols() {
    let fired = sample_alert("Sev2", "Fired", vec![]);
    let resolved = sample_alert("Sev2", "Resolved", vec![]);
    let other = sample_alert("Sev2", "anything else", vec![]);
    assert_eq!(fired.get_condition_emoji(), SYM_FIRED);
    assert_eq!(resolved.get_condition_emoji(), SYM_RESOLVED);
    assert_eq!(other.get_condition_emoji(), SYM_OTHER);
    assert_ne!(SYM_FIRED, SYM_RESOLVED);
    assert_ne!(SYM_FIRED, SYM_OTHER);
    assert_ne!(SYM_RESOLVED, SYM_OTHER);
}

#[test]
fn is_resolved_iff_exactly_resolved() {
    assert!(sample_alert("Sev2", "Resolved", vec![]).is_resolved());
    assert!(!sample_alert("Sev2", "Fired", vec![]).is_resolved());
    assert!(!sample_alert("Sev2", "resolved", vec![]).is_resolved());
    assert!(!sample_alert("Sev2", "Resolved ", vec![]).is_resolved());
}

#[test]
fn primary_metric_is_first_or_absent() {
    let mut alert = sample_alert("Sev2", "Fired", vec![]);
    assert!(alert.get_primary_metric().is_none());
    alert.data.alert_context.condition.all_of = vec![
        MetricCondition {
            metric_name: String::from("first"),
            metric_namespace: None,
            operator: String::from("GreaterThan"),
            threshold: String::from("1"),
            metric_value: String::from("2"),
            time_aggregation: None,
            dimensions: None,
        },
        MetricCondition {
            metric_name: String::from("second"),
            metric_namespace: None,
            operator: String::from("LessThan"),
            threshold: String::from("3"),
            metric_value: String::from("4"),
            time_aggregation: None,
            dimensions: None,
        },
    ];
    assert_eq!(alert.get_primary_metric().unwrap().metric_name, "first");
}

#[test]
fn render_canonical_sample_message() {
    let alert = decode_sample();
    let message = format_alert_message(&alert, &None);
    let expected = format!(
        "{} {} *WCUS-R2-Gen2*\n\
         > *Description:* Too many requests\n\
         > *Resource:* wcus-r2-gen2\n\
         > *Severity:* Sev2\n\
         > *Time:* 2019-03-22T13:58:24.3713213Z\n\
         > *Metric:* Percentage CPU GreaterThan 25 (Current: 7.727)\n\
         > *ResourceId:* 3efad9dc-3d50-4eac-9c87-8b3fd6f97e4e\n",
        SYM_SEV2, SYM_FIRED
    );
    assert_eq!(message, expected);
}

#[test]
fn render_is_deterministic_and_dashboard_controls_link_line() {
    let alert = decode_sample();
    let url = Some(String::from("https://example.test/dashboard"));
    let once = format_alert_message(&alert, &url);
    let twice = format_alert_message(&alert, &url);
    assert_eq!(once, twice);
    assert!(once.ends_with("> <https://example.test/dashboard|View in Azure>\n"));

    let without = format_alert_message(&alert, &None);
    let with_empty = format_alert_message(&alert, &Some(String::new()));
    assert_eq!(without, with_empty);
    assert!(without.ends_with("3efad9dc-3d50-4eac-9c87-8b3fd6f97e4e\n"));
    assert!(!without.contains("View in Azure"));
    assert!(!without.contains("\n\n"));
}

#[test]
fn render_without_description_omits_the_line() {
    let alert = sample_alert("Sev0", "Resolved", vec![String::from("a/b")]);
    let message = format_alert_message(&alert, &None);
    let expected = format!(
        "{} {} *Rule*\n\
         > *Resource:* b\n\
         > *Severity:* Sev0\n\
         > *Time:* 2019-03-22T13:58:24.3713213Z\n",
        SYM_SEV0, SYM_RESOLVED
    );
    assert_eq!(message, expected);
}

#[test]
fn payload_is_the_escaped_text_object() {
    assert_eq!(build_payload("hello"), b"{\"text\":\"hello\"}".to_vec());
    assert_eq!(
        build_payload("a\"b\\c\nd\re\tf\u{8}g\u{c}h"),
        b"{\"text\":\"a\\\"b\\\\c\\nd\\re\\tf\\bg\\fh\"}".to_vec()
    );
    assert_eq!(build_payload("\u{1}\u{1f}"), b"{\"text\":\"\\u0001\\u001f\"}".to_vec());
    assert_eq!(build_payload(SYM_SEV2), format!("{{\"text\":\"{}\"}}", SYM_SEV2).into_bytes());
}

#[test]
fn missing_alert_rule_is_rejected_without_forwarding() {
    let json = r#"{
      "schemaId": "s",
      "data": {
        "essentials": {
          "alertId": "a", "severity": "Sev1",
          "monitorCondition": "Fired", "firedDateTime": "t",
          "alertTargetIDs": []
        },
        "alertContext": { "condition": { "allOf": [] } }
      }
    }"#;
    let doc = parse_json(json.as_bytes()).unwrap();
    let err = decode_alert(&doc).unwrap_err();
    assert_eq!(err, "missing field data.essentials.alertRule");

    let webhook = Some(String::from("https://hooks.example.test/x"));
    let plan = plan_relay(&webhook, &None, json.as_bytes());
    match plan {
        RelayPlan::Respond(r) => {
            assert_eq!(r.status, 400);
            assert_eq!(r.body, "Invalid alert payload: missing field data.essentials.alertRule");
        }
        RelayPlan::Forward(_) => panic!("a payload that fails decode must not be forwarded"),
    }
}

#[test]
fn mistyped_field_is_rejected_with_its_path() {
    let json = r#"{
      "schemaId": "s",
      "data": {
        "essentials": {
          "alertId": "a", "alertRule": "r", "severity": 2,
          "monitorCondition": "Fired", "firedDateTime": "t",
          "alertTargetIDs": []
        },
        "alertContext": { "condition": { "allOf": [] } }
      }
    }"#;
    let doc = parse_json(json.as_bytes()).unwrap();
    let err = decode_alert(&doc).unwrap_err();
    assert_eq!(err, "field data.essentials.severity has the wrong type");

    let json2 = r#"{
      "schemaId": "s",
      "data": {
        "essentials": {
          "alertId": "a", "alertRule": "r", "severity": "Sev1",
          "monitorCondition": "Fired", "firedDateTime": "t",
          "alertTargetIDs": ["ok", 3]
        },
        "alertContext": { "condition": { "allOf": [] } }
      }
    }"#;
    let doc2 = parse_json(json2.as_bytes()).unwrap();
    let err2 = decode_alert(&doc2).unwrap_err();
    assert_eq!(err2, "field data.essentials.alertTargetIDs has the wrong type");
}

#[test]
fn non_object_payload_is_rejected() {
    let doc = parse_json(b"[1, 2, 3]").unwrap();
    let err = decode_alert(&doc).unwrap_err();
    assert_eq!(err, "payload is not a JSON object");
}

#[test]
fn unparsable_body_yields_a_400_with_a_reason() {
    let webhook = Some(String::from("https://hooks.example.test/x"));
    let plan = plan_relay(&webhook, &None, b"this is not json");
    match plan {
        RelayPlan::Respond(r) => {
            assert_eq!(r.status, 400);
            assert!(r.body.starts_with("Invalid alert payload: "));
            assert!(r.body.len() > "Invalid alert payload: ".len());
        }
        RelayPlan::Forward(_) => panic!("an unparsable body must not be forwarded"),
    }
}

#[test]
fn missing_webhook_configuration_is_a_500_without_forwarding() {
    let plan = plan_relay(&None, &None, SAMPLE.as_bytes());
    match plan {
        RelayPlan::Respond(r) => {
            assert_eq!(r.status, 500);
            assert_eq!(r.body, "Configuration error: missing webhook URL");
        }
        RelayPlan::Forward(_) => panic!("nothing may be forwarded without a destination"),
    }
}

#[test]
fn successful_plan_forwards_the_rendered_message() {
    let webhook = Some(String::from("https://hooks.example.test/x"));
    let dashboard = Some(String::from("https://portal.example.test/alerts"));
    let plan = plan_relay(&webhook, &dashboard, SAMPLE.as_bytes());
    match plan {
        RelayPlan::Forward(post) => {
            assert_eq!(post.url, "https://hooks.example.test/x");
            assert_eq!(post.content_type, "application/json");
            let alert = decode_sample();
            let message = format_alert_message(&alert, &dashboard);
            let expected = format!("{{\"text\":\"{}\"}}", message.replace('\n', "\\n"));
            assert_eq!(post.body, expected.into_bytes());
            assert!(message.ends_with("> <https://portal.example.test/alerts|View in Azure>\n"));
        }
        RelayPlan::Respond(_) => panic!("the canonical sample must decode and be forwarded"),
    }
}

#[test]
fn forward_outcome_maps_to_the_final_response() {
    let ok = conclude_relay(Some(200));
    assert_eq!(ok.status, 200);
    assert_eq!(ok.body, "");

    let rejected = conclude_relay(Some(503));
    assert_eq!(rejected.status, 500);
    assert_eq!(rejected.body, "Failed to send to Slack");

    let teapot = conclude_relay(Some(418));
    assert_eq!(teapot.status, 500);
    assert_eq!(teapot.body, "Failed to send to Slack");

    let transport_failure = conclude_relay(None);
    assert_eq!(transport_failure.status, 500);
    assert_eq!(transport_failure.body, "Failed to send to Slack");
}

#[test]
fn whole_number_metric_value_renders_like_a_float_display() {
    let json = r#"{
      "schemaId": "s",
      "data": {
        "essentials": {
          "alertId": "a", "alertRule": "r", "severity": "Sev3",
          "monitorCondition": "Fired", "firedDateTime": "t",
          "alertTargetIDs": ["host"]
        },
        "alertContext": {
          "condition": {
            "allOf": [
              { "metricName": "m", "operator": "GreaterThan",
                "threshold": "25", "metricValue": 25.0 }
            ]
          }
        }
      }
    }"#;
    let doc = parse_json(json.as_bytes()).unwrap();
    let alert = decode_alert(&doc).unwrap();
    assert_eq!(alert.data.alert_context.condition.all_of[0].metric_value, "25");
    let message = format_alert_message(&alert, &None);
    assert!(message.contains("> *Metric:* m GreaterThan 25 (Current: 25)\n"));
}

#[test]
fn dimension_lines_keep_source_order() {
    let mut alert = sample_alert("Sev4", "Fired", vec![String::from("x/y")]);
    alert.data.alert_context.condition.all_of = vec![MetricCondition {
        metric_name: String::from("Requests"),
        metric_namespace: None,
        operator: String::from("GreaterThan"),
        threshold: String::from("10"),
        metric_value: String::from("42"),
        time_aggregation: None,
        dimensions: Some(vec![
            Dimension { name: String::from("StatusCode"), value: String::from("429") },
            Dimension { name: String::from("Region"), value: String::from("westus") },
        ]),
    }];
    let message = format_alert_message(&alert, &None);
    let status = message.find("> *StatusCode:* 429\n").unwrap();
    let region = message.find("> *Region:* westus\n").unwrap();
    assert!(status < region);
}
