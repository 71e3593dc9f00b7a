use learn_model_with_linear_regression_api::data_manipulate_client::judge_scaler_reply;
use learn_model_with_linear_regression_api::train_endpoint::{
    check_ratio_count, dataset_payload, is_dataset_field, train_next, TrainAction, TrainEvent,
    TrainState,
};
use learn_model_with_linear_regression_api::train_params::TrainParams;

fn begin(learning_rate: f64, loop_count: usize) -> TrainEvent {
    TrainEvent::Begin {
        params: TrainParams { learning_rate_bits: learning_rate.to_bits(), loop_count },
        shown_learning_rate: learning_rate.to_string(),
    }
}

fn step(state: &mut TrainState, event: TrainEvent) -> TrainAction {
    let current = std::mem::replace(state, TrainState::Finished);
    let (next, action) = train_next(current, event);
    *state = next;
    action
}

#[test]
fn only_the_dataset_field_is_read() {
    assert!(is_dataset_field(Some("dataset")));
    assert!(!is_dataset_field(Some("datasets")));
    assert!(!is_dataset_field(Some("Dataset")));
    assert!(!is_dataset_field(Some("")));
    assert!(!is_dataset_field(None));
}

#[test]
fn a_present_payload_is_handed_on() {
    assert_eq!(dataset_payload(Some("{}".to_string())).unwrap(), "{}");
}

#[test]
fn a_missing_payload_is_a_bad_request() {
    let (status, text) = dataset_payload(None).unwrap_err();
    assert_eq!(status, 400);
    assert_eq!(text, "Form hasn't a 'dataset' named field !!");
}

#[test]
fn matching_ratio_count_passes() {
    assert!(check_ratio_count(2, 3).is_ok());
    assert!(check_ratio_count(0, 1).is_ok());
}

#[test]
fn mismatched_ratio_count_is_a_bad_gateway() {
    let (status, text) = check_ratio_count(2, 2).unwrap_err();
    assert_eq!(status, 502);
    assert_eq!(text, "the scaling service returned 2 ratios for 2 feature(s), expected 3");
    let (status, text) = check_ratio_count(usize::MAX, 0).unwrap_err();
    assert_eq!(status, 502);
    assert_eq!(
        text,
        format!(
            "the scaling service returned 0 ratios for {} feature(s), expected {}",
            usize::MAX,
            usize::MAX as u128 + 1
        )
    );
}

#[test]
fn a_rejection_keeps_the_scalers_status() {
    let (status, text) = judge_scaler_reply(422, "  sample count mismatch \n").unwrap_err();
    assert_eq!(status, 422);
    assert_eq!(text, "the scaling service rejected the data set: sample count mismatch");
    let (status, _) = judge_scaler_reply(400, "bad").unwrap_err();
    assert_eq!(status, 400);
}

#[test]
fn a_server_failure_is_a_bad_gateway() {
    let (status, text) = judge_scaler_reply(500, "\toops ").unwrap_err();
    assert_eq!(status, 502);
    assert_eq!(text, "the scaling service answered 500 Internal Server Error: oops");
    let (status, text) = judge_scaler_reply(302, "").unwrap_err();
    assert_eq!(status, 502);
    assert_eq!(text, "the scaling service answered 302 Found: ");
    let (_, text) = judge_scaler_reply(599, "x").unwrap_err();
    assert_eq!(text, "the scaling service answered 599 <unknown status code>: x");
}

#[test]
fn a_success_is_parsed() {
    assert!(judge_scaler_reply(200, "{}").is_ok());
    assert!(judge_scaler_reply(299, "").is_ok());
}

#[test]
fn a_full_run_reads_the_dataset_then_rescales_then_trains() {
    let mut state = TrainState::Start;
    assert!(matches!(step(&mut state, begin(0.003, 20_000)), TrainAction::ReadNextField));
    assert!(matches!(
        step(&mut state, TrainEvent::Field { name: Some("other".to_string()) }),
        TrainAction::ReadNextField
    ));
    assert!(matches!(
        step(&mut state, TrainEvent::Field { name: Some("dataset".to_string()) }),
        TrainAction::ReadFieldText
    ));
    assert!(matches!(
        step(&mut state, TrainEvent::FieldText { text: "{\"a\":1}".to_string() }),
        TrainAction::ReadNextField
    ));
    match step(&mut state, TrainEvent::BodyEnd) {
        TrainAction::Rescale { payload } => assert_eq!(payload, "{\"a\":1}"),
        _ => panic!("expected a rescale"),
    }
    assert!(matches!(
        step(&mut state, TrainEvent::ScalerReply { status: 200, body: "{}".to_string() }),
        TrainAction::ParseScaledReply
    ));
    match step(&mut state, TrainEvent::ScaledShape { feature_count: 2, ratio_count: 3 }) {
        TrainAction::Train { payload, feature_count } => {
            assert_eq!(payload, "{\"a\":1}");
            assert_eq!(feature_count, 2);
        }
        _ => panic!("expected training"),
    }
    assert!(matches!(state, TrainState::Finished));
}

#[test]
fn the_last_dataset_field_wins() {
    let mut state = TrainState::Start;
    step(&mut state, begin(0.01, 10));
    for text in ["first", "second"] {
        step(&mut state, TrainEvent::Field { name: Some("dataset".to_string()) });
        step(&mut state, TrainEvent::FieldText { text: text.to_string() });
    }
    match step(&mut state, TrainEvent::BodyEnd) {
        TrainAction::Rescale { payload } => assert_eq!(payload, "second"),
        _ => panic!("expected a rescale"),
    }
}

#[test]
fn bad_parameters_are_answered_before_the_body_is_read() {
    let mut state = TrainState::Start;
    match step(&mut state, begin(0.01, 0)) {
        TrainAction::Reply { status, text } => {
            assert_eq!(status, 400);
            assert_eq!(text, "loop_count must be at least 1");
        }
        _ => panic!("expected a reply"),
    }
    assert!(matches!(step(&mut state, TrainEvent::BodyEnd), TrainAction::Abandon));
}

#[test]
fn a_body_without_dataset_never_reaches_the_scaler() {
    let mut state = TrainState::Start;
    step(&mut state, begin(0.01, 10));
    step(&mut state, TrainEvent::Field { name: None });
    match step(&mut state, TrainEvent::BodyEnd) {
        TrainAction::Reply { status, text } => {
            assert_eq!(status, 400);
            assert_eq!(text, "Form hasn't a 'dataset' named field !!");
        }
        _ => panic!("expected a reply"),
    }
}

#[test]
fn a_scaler_failure_and_a_bad_shape_are_answered() {
    let mut state = TrainState::AwaitingScaler { payload: "x".to_string() };
    match step(&mut state, TrainEvent::ScalerReply { status: 503, body: " down ".to_string() }) {
        TrainAction::Reply { status, text } => {
            assert_eq!(status, 502);
            assert_eq!(text, "the scaling service answered 503 Service Unavailable: down");
        }
        _ => panic!("expected a reply"),
    }
    let mut state = TrainState::AwaitingShape { payload: "x".to_string() };
    match step(&mut state, TrainEvent::ScaledShape { feature_count: 2, ratio_count: 2 }) {
        TrainAction::Reply { status, .. } => assert_eq!(status, 502),
        _ => panic!("expected a reply"),
    }
}

#[test]
fn an_event_out_of_place_is_abandoned() {
    let mut state = TrainState::Start;
    assert!(matches!(step(&mut state, TrainEvent::BodyEnd), TrainAction::Abandon));
    let mut state = TrainState::AwaitingScaler { payload: "x".to_string() };
    assert!(matches!(
        step(&mut state, TrainEvent::ScalerReply { status: 42, body: String::new() }),
        TrainAction::Abandon
    ));
}
