use example_indexer::indexer::abi::{all_for_parse, ExtractableKind};
use example_indexer::indexer::parsing::{is_known_event, is_known_function, plan_parsed_events, UnknownName};
use example_indexer::indexer::utils::{require_output, RunFunctionFailure};
use example_indexer::settings::{from_string_to_vec, get_kafka_settings};

fn names(v: &[&str]) -> Vec<String> {
    v.iter().map(|s| s.to_string()).collect()
}

#[test]
fn known_names() {
    assert!(is_known_event("ExampleEvent"));
    assert!(!is_known_event("exampleEvent"));
    assert!(!is_known_event("ExampleEvent2"));
    assert!(is_known_function("exampleFunction"));
    assert!(!is_known_function("ExampleFunction"));
}

#[test]
fn plan_handles_all_known_items() {
    let plan = plan_parsed_events(&names(&["ExampleEvent", "ExampleEvent"]), &names(&["exampleFunction"]));
    assert_eq!(plan.handled_events, 2);
    assert_eq!(plan.checked_functions, 1);
    assert!(plan.failure.is_none());
}

#[test]
fn plan_stops_at_first_unknown_event() {
    let plan = plan_parsed_events(
        &names(&["ExampleEvent", "Other", "ExampleEvent"]),
        &names(&["bad"]),
    );
    assert_eq!(plan.handled_events, 1);
    assert_eq!(plan.checked_functions, 0);
    match plan.failure {
        Some(UnknownName::Event(n)) => assert_eq!(n, "Other"),
        _ => panic!("expected an unknown event"),
    }
}

#[test]
fn plan_reports_first_unknown_function() {
    let plan = plan_parsed_events(&names(&[]), &names(&["exampleFunction", "x", "y"]));
    assert_eq!(plan.handled_events, 0);
    assert_eq!(plan.checked_functions, 1);
    match plan.failure {
        Some(UnknownName::Function(n)) => assert_eq!(n, "x"),
        _ => panic!("expected an unknown function"),
    }
}

#[test]
fn parse_targets_and_their_dispatch() {
    let targets = all_for_parse();
    assert_eq!(targets.len(), 2);
    assert_eq!(targets[0].kind, ExtractableKind::Event);
    assert_eq!(targets[0].name, "exampleEvent");
    assert_eq!(targets[1].kind, ExtractableKind::Function);
    assert_eq!(targets[1].name, "exampleFunction");
    assert!(!is_known_event(&targets[0].name));
    assert!(is_known_function(&targets[1].name));
}

#[test]
fn run_function_failure_messages() {
    assert_eq!(RunFunctionFailure::NoClient.message(), "transaction_consumer.get_client() is None");
    assert_eq!(RunFunctionFailure::NoOutput.message(), "run_local_with_time_check is None");
    assert_eq!(RunFunctionFailure::EmptyTokens.message(), "empty tokens");
}

#[test]
fn kafka_settings_name_brokers_and_client() {
    let s = get_kafka_settings("group", "topic", "broker1:9092,broker2:9092", "client-7");
    assert_eq!(s.group_id, "group");
    assert_eq!(s.topic, "topic");
    assert_eq!(s.options.len(), 2);
    assert_eq!(s.options[0], ("bootstrap.servers".to_string(), "broker1:9092,broker2:9092".to_string()));
    assert_eq!(s.options[1], ("client.id".to_string(), "client-7".to_string()));
    assert_ne!(s.options[0].0, s.options[1].0);
}

#[test]
fn require_output_reports_the_given_failure() {
    assert_eq!(require_output(Some(3u8), RunFunctionFailure::NoClient), Ok(3u8));
    assert_eq!(
        require_output(None::<u8>, RunFunctionFailure::EmptyTokens),
        Err(RunFunctionFailure::EmptyTokens)
    );
}

#[test]
fn endpoints_split_at_commas() {
    assert_eq!(from_string_to_vec("http://a,http://b"), vec!["http://a".to_string(), "http://b".to_string()]);
    assert_eq!(from_string_to_vec("http://a"), vec!["http://a".to_string()]);
    assert_eq!(from_string_to_vec(""), vec!["".to_string()]);
    assert_eq!(from_string_to_vec(",x,"), vec!["".to_string(), "x".to_string(), "".to_string()]);
}
