use databend_core::arithmetic::{ArithmeticDivFunction, DataValueArithmeticOperator};
use databend_core::http_metrics::{
    http_request_counter, http_request_labels, http_response_error_labels,
    http_response_errors_counter, http_response_panics_counter, http_slow_request_counter,
    metrics_incr_http_request_count,
    metrics_incr_http_response_errors_count, metrics_incr_http_response_panics_count,
    metrics_incr_http_slow_request_count,
};
use databend_core::parquet_read::{need_pruner, ParquetPart};
use databend_core::rule_factory::{RuleFactory, RuleID};

#[test]
fn division_function_divides() {
    let f = ArithmeticDivFunction::try_create_func("divide").unwrap();
    assert_eq!(f.op, DataValueArithmeticOperator::Div);
}

#[test]
fn request_labels_are_method_api_status() {
    let labels = http_request_labels("GET".to_string(), "/v1/query".to_string(), "200".to_string());
    assert_eq!(
        labels,
        vec![
            ("method", "GET".to_string()),
            ("api", "/v1/query".to_string()),
            ("status", "200".to_string())
        ]
    );
}

#[test]
fn response_error_labels_hold_the_decimal_code() {
    let labels = http_response_error_labels("timeout".to_string(), 504);
    assert_eq!(labels, vec![("err", "timeout".to_string()), ("code", "504".to_string())]);
    let labels = http_response_error_labels("x".to_string(), 0);
    assert_eq!(labels[1].1, "0");
}

#[test]
fn request_counters_are_named_and_labelled() {
    let (name, labels) =
        http_request_counter("POST".to_string(), "/v1/query".to_string(), "404".to_string());
    assert_eq!(name, "query_http_requests_count");
    assert_eq!(
        labels,
        vec![
            ("method", "POST".to_string()),
            ("api", "/v1/query".to_string()),
            ("status", "404".to_string())
        ]
    );
    let (name, labels) =
        http_slow_request_counter("GET".to_string(), "/v1/query/1".to_string(), "200".to_string());
    assert_eq!(name, "query_http_slow_requests_count");
    assert_eq!(
        labels,
        vec![
            ("method", "GET".to_string()),
            ("api", "/v1/query/1".to_string()),
            ("status", "200".to_string())
        ]
    );
}

#[test]
fn error_and_panic_counters_are_named_and_labelled() {
    let (name, labels) = http_response_errors_counter("timeout".to_string(), 65535);
    assert_eq!(name, "query_http_response_errors_count");
    assert_eq!(labels, vec![("err", "timeout".to_string()), ("code", "65535".to_string())]);
    let (name, labels) = http_response_panics_counter();
    assert_eq!(name, "query_http_response_panics_count");
    assert!(labels.is_empty());
}

#[test]
fn counters_can_be_incremented_without_a_recorder() {
    metrics_incr_http_request_count("GET".to_string(), "/".to_string(), "200".to_string());
    metrics_incr_http_slow_request_count("GET".to_string(), "/".to_string(), "200".to_string());
    metrics_incr_http_response_errors_count("e".to_string(), 500);
    metrics_incr_http_response_panics_count();
}

#[test]
fn rules_that_read_metadata_get_it() {
    for id in [
        RuleID::PushDownFilterEvalScalar,
        RuleID::PushDownFilterJoin,
        RuleID::PushDownFilterScan,
        RuleID::EagerAggregation,
        RuleID::PushDownPrewhere,
        RuleID::TryApplyAggIndex,
    ] {
        let rule = RuleFactory::create_rule(id, 42u32, ()).unwrap();
        assert_eq!(rule.id, id);
        assert_eq!(rule.metadata, Some(42));
    }
}

#[test]
fn other_rules_do_not_hold_metadata() {
    for id in [RuleID::EliminateEvalScalar, RuleID::CommuteJoin, RuleID::MergeFilter, RuleID::PushDownLimitScan] {
        let rule = RuleFactory::create_rule(id, 42u32, ()).unwrap();
        assert_eq!(rule.id, id);
        assert_eq!(rule.metadata, None);
    }
}

#[test]
fn a_pruner_is_needed_when_whole_files_are_read() {
    assert!(!need_pruner(&vec![]));
    assert!(need_pruner(&vec![
        ParquetPart::RowGroup("a".to_string(), 0),
        ParquetPart::ParquetFiles(vec![("b".to_string(), 10)]),
    ]));
    assert!(!need_pruner(&vec![
        ParquetPart::ParquetFiles(vec![("b".to_string(), 10)]),
        ParquetPart::SmallFiles(vec![("c".to_string(), 1)]),
    ]));
}
