//! The decisions the `POST /train` handler takes between its awaits, as a
//! step function from the handler's state and what the last outside step
//! produced to its next state and the outside work to do next.
//!
//! The handler checks the query parameters first, then reads the multipart
//! body field by field, keeping the text of the last field named `dataset`,
//! hands that text to the scaling service, checks the scaled reply, and only
//! then trains. Reading the body, calling the scaler, parsing its reply and
//! training are floating-point or I/O work done by the caller of
//! [`train_next`].

use vstd::prelude::*;
use crate::decimal::{decimal, push_decimal};
use crate::data_manipulate_client::BAD_GATEWAY;
use crate::text::{chars_of, trimmed};
use crate::data_manipulate_client::{
    judge_scaler_reply, is_client_error, is_success, rejected_text, failed_text,
};
use crate::train_params::{TrainParams, params_verdict, params_error_text};

verus! {

/// The status `400 Bad Request`.
pub const BAD_REQUEST: u16 = 400;

/// The name of the multipart field that carries the training set.
pub open spec fn dataset_field_name() -> Seq<char> {
    "dataset"@
}

/// Whether a multipart field named `name` (`None` for a field without a name)
/// is the one that carries the training set.
pub fn is_dataset_field(name: Option<&str>) -> (is_dataset: bool)
    ensures
        is_dataset <==> (name matches Some(n) && n@ == dataset_field_name()),
{
    proof {
        reveal_strlit("dataset");
    }
    match name {
        None => false,
        Some(n) => {
            let chars = chars_of(n);
            let expected = chars_of("dataset");
            if chars.len() != expected.len() {
                return false;
            }
            let mut i: usize = 0;
            while i < chars.len()
                invariant
                    name == Some(n),
                    chars@ == n@,
                    expected@ == dataset_field_name(),
                    chars.len() == expected.len(),
                    i <= chars.len(),
                    forall|k: int| 0 <= k < i ==> chars@[k] == expected@[k],
                decreases chars.len() - i,
            {
                if chars[i] != expected[i] {
                    assert(n@[i as int] != dataset_field_name()[i as int]);
                    return false;
                }
                i += 1;
            }
            assert(chars@ =~= expected@);
            true
        },
    }
}

/// The text the caller gets when no field carries the training set.
pub open spec fn missing_dataset_text() -> Seq<char> {
    "Form hasn't a 'dataset' named field !!"@
}

/// The training set read from the multipart body, or, when no field carried
/// one, the status and text that the caller is answered with.
pub fn dataset_payload(payload: Option<String>) -> (res: Result<String, (u16, String)>)
    ensures
        payload matches Some(p) ==> res == Ok::<String, (u16, String)>(p),
        payload is None ==> (res matches Err((code, text)) && code == BAD_REQUEST && text@
            == missing_dataset_text()),
{
    match payload {
        Some(p) => Ok(p),
        None => Err((BAD_REQUEST, String::from_str("Form hasn't a 'dataset' named field !!"))),
    }
}

/// The text the caller gets when the scaler returned `ratio_count` exponents
/// for `feature_count` features.
pub open spec fn ratio_count_text(ratio_count: nat, feature_count: nat) -> Seq<char> {
    "the scaling service returned "@ + decimal(ratio_count) + " ratios for "@ + decimal(
        feature_count,
    ) + " feature(s), expected "@ + decimal(feature_count + 1)
}

/// Checks that the scaler reported one exponent per feature plus the one for
/// the outputs; otherwise the status and text the caller is answered with.
pub fn check_ratio_count(feature_count: usize, ratio_count: usize) -> (res: Result<(), (u16, String)>)
    ensures
        ratio_count == feature_count + 1 ==> res is Ok,
        ratio_count != feature_count + 1 ==> (res matches Err((code, text)) && code
            == BAD_GATEWAY && text@ == ratio_count_text(ratio_count as nat, feature_count as nat)),
{
    if ratio_count >= 1 && ratio_count - 1 == feature_count {
        return Ok(());
    }
    let mut text = String::from_str("the scaling service returned ");
    push_decimal(&mut text, ratio_count as u128);
    text.append(" ratios for ");
    push_decimal(&mut text, feature_count as u128);
    text.append(" feature(s), expected ");
    push_decimal(&mut text, feature_count as u128 + 1);
    Err((BAD_GATEWAY, text))
}

/// Where a `/train` request stands.
pub enum TrainState {
    /// Nothing has been looked at yet.
    Start,
    /// The parameters passed; the body is being read field by field, and
    /// `dataset` is the text of the last `dataset` field read so far.
    ReadingBody { dataset: Option<String> },
    /// A `dataset` field was found and its text is being read.
    ReadingDataset { dataset: Option<String> },
    /// The training set `payload` was sent to the scaling service.
    AwaitingScaler { payload: String },
    /// The scaler accepted `payload`; its reply is being parsed.
    AwaitingShape { payload: String },
    /// The request was answered, or handed over to training.
    Finished,
}

/// What the last piece of outside work produced.
pub enum TrainEvent {
    /// The request arrived with these parameters; `shown_learning_rate` is its
    /// learning rate as `{}` formats it.
    Begin { params: TrainParams, shown_learning_rate: String },
    /// The body has a further field, named `name`.
    Field { name: Option<String> },
    /// The text of the field that was asked for.
    FieldText { text: String },
    /// The body has no further field.
    BodyEnd,
    /// The scaling service answered with `status` and `body`.
    ScalerReply { status: u16, body: String },
    /// The scaler's reply parsed; its first sample has `feature_count`
    /// features and it carries `ratio_count` exponents.
    ScaledShape { feature_count: usize, ratio_count: usize },
}

/// The outside work to do next.
pub enum TrainAction {
    /// Read the next field of the body.
    ReadNextField,
    /// Read the text of the field just announced.
    ReadFieldText,
    /// Send `payload` to the scaling service.
    Rescale { payload: String },
    /// Parse the scaler's reply body as the scaled data set.
    ParseScaledReply,
    /// Train on the scaled set, measuring both costs against `payload`, with
    /// `feature_count + 1` starting coefficients.
    Train { payload: String, feature_count: usize },
    /// Answer the request with `status` and `text`.
    Reply { status: u16, text: String },
    /// The event does not belong to the state: nothing more is to be done.
    Abandon,
}

/// A state in which the request is still being worked on.
pub open spec fn in_progress(state: TrainState) -> bool {
    ||| state is ReadingBody
    ||| state is ReadingDataset
    ||| state is AwaitingScaler
    ||| state is AwaitingShape
}

/// The field `name` carries the training set.
pub open spec fn names_dataset(name: Option<String>) -> bool {
    name matches Some(n) && n@ == dataset_field_name()
}

/// One step of the handler: `next` and `action` are what [`train_next`] gives
/// for `state` and `event`.
pub open spec fn train_step(
    state: TrainState,
    event: TrainEvent,
    next: TrainState,
    action: TrainAction,
) -> bool {
    match (state, event) {
        (TrainState::Start, TrainEvent::Begin { params, shown_learning_rate }) => match params_verdict(
            params.learning_rate_bits,
            params.loop_count,
        ) {
            Err(e) => next is Finished && (action matches TrainAction::Reply { status, text } && status
                == BAD_REQUEST && text@ == params_error_text(e, shown_learning_rate@)),
            Ok(_) => next == (TrainState::ReadingBody { dataset: None }) && action is ReadNextField,
        },
        (TrainState::ReadingBody { dataset }, TrainEvent::Field { name }) => if names_dataset(name) {
            next == (TrainState::ReadingDataset { dataset }) && action is ReadFieldText
        } else {
            next == (TrainState::ReadingBody { dataset }) && action is ReadNextField
        },
        (TrainState::ReadingDataset { dataset: _ }, TrainEvent::FieldText { text }) => next == (
        TrainState::ReadingBody { dataset: Some(text) }) && action is ReadNextField,
        (TrainState::ReadingBody { dataset }, TrainEvent::BodyEnd) => match dataset {
            None => next is Finished && (action matches TrainAction::Reply { status, text } && status
                == BAD_REQUEST && text@ == missing_dataset_text()),
            Some(p) => next == (TrainState::AwaitingScaler { payload: p }) && action == (
            TrainAction::Rescale { payload: p }),
        },
        (TrainState::AwaitingScaler { payload }, TrainEvent::ScalerReply { status, body }) => if !(100
            <= status <= 999) {
            next is Finished && action is Abandon
        } else if is_client_error(status) {
            next is Finished && (action matches TrainAction::Reply { status: code, text } && code
                == status && text@ == rejected_text(body@))
        } else if !is_success(status) {
            next is Finished && (action matches TrainAction::Reply { status: code, text } && code
                == BAD_GATEWAY && text@ == failed_text(status, body@))
        } else {
            next == (TrainState::AwaitingShape { payload }) && action is ParseScaledReply
        },
        (
            TrainState::AwaitingShape { payload },
            TrainEvent::ScaledShape { feature_count, ratio_count },
        ) => if ratio_count == feature_count + 1 {
            next is Finished && action == (TrainAction::Train { payload, feature_count })
        } else {
            next is Finished && (action matches TrainAction::Reply { status, text } && status
                == BAD_GATEWAY && text@ == ratio_count_text(ratio_count as nat, feature_count as nat))
        },
        _ => next is Finished && action is Abandon,
    }
}

/// Takes the handler one step further: from where the request stands and what
/// the last outside step produced, to where it stands next and what to do.
pub fn train_next(state: TrainState, event: TrainEvent) -> (res: (TrainState, TrainAction))
    ensures
        train_step(state, event, res.0, res.1),
{
    match (state, event) {
        (TrainState::Start, TrainEvent::Begin { params, shown_learning_rate }) => {
            match params.validate() {
                Err(e) => (
                    TrainState::Finished,
                    TrainAction::Reply {
                        status: e.status(),
                        text: e.message(shown_learning_rate.as_str()),
                    },
                ),
                Ok(()) => (TrainState::ReadingBody { dataset: None }, TrainAction::ReadNextField),
            }
        },
        (TrainState::ReadingBody { dataset }, TrainEvent::Field { name }) => {
            let wanted = match &name {
                Some(n) => is_dataset_field(Some(n.as_str())),
                None => false,
            };
            if wanted {
                (TrainState::ReadingDataset { dataset }, TrainAction::ReadFieldText)
            } else {
                (TrainState::ReadingBody { dataset }, TrainAction::ReadNextField)
            }
        },
        (TrainState::ReadingDataset { dataset: _ }, TrainEvent::FieldText { text }) => {
            (TrainState::ReadingBody { dataset: Some(text) }, TrainAction::ReadNextField)
        },
        (TrainState::ReadingBody { dataset }, TrainEvent::BodyEnd) => {
            match dataset_payload(dataset) {
                Ok(p) => {
                    let sent = p.clone();
                    (TrainState::AwaitingScaler { payload: p }, TrainAction::Rescale { payload: sent })
                },
                Err((status, text)) => (TrainState::Finished, TrainAction::Reply { status, text }),
            }
        },
        (TrainState::AwaitingScaler { payload }, TrainEvent::ScalerReply { status, body }) => {
            if !(100 <= status && status <= 999) {
                return (TrainState::Finished, TrainAction::Abandon);
            }
            match judge_scaler_reply(status, body.as_str()) {
                Ok(()) => (TrainState::AwaitingShape { payload }, TrainAction::ParseScaledReply),
                Err((code, text)) => (TrainState::Finished, TrainAction::Reply { status: code, text }),
            }
        },
        (
            TrainState::AwaitingShape { payload },
            TrainEvent::ScaledShape { feature_count, ratio_count },
        ) => {
            match check_ratio_count(feature_count, ratio_count) {
                Ok(()) => (TrainState::Finished, TrainAction::Train { payload, feature_count }),
                Err((status, text)) => (TrainState::Finished, TrainAction::Reply { status, text }),
            }
        },
        _ => (TrainState::Finished, TrainAction::Abandon),
    }
}

/// `states`, `events` and `actions` record a run of the handler from its
/// start: `events[i]` took it from `states[i]` to `states[i + 1]` and asked
/// for `actions[i]`.
pub open spec fn handler_run(
    states: Seq<TrainState>,
    events: Seq<TrainEvent>,
    actions: Seq<TrainAction>,
) -> bool {
    &&& states.len() == events.len() + 1
    &&& actions.len() == events.len()
    &&& states[0] is Start
    &&& forall|i: int|
        #![trigger events[i]]
        0 <= i < events.len() ==> train_step(states[i], events[i], states[i + 1], actions[i])
}

/// The request's parameters passed validation.
pub open spec fn accepted_begin(event: TrainEvent) -> bool {
    event matches TrainEvent::Begin { params, .. } && params_verdict(
        params.learning_rate_bits,
        params.loop_count,
    ) is Ok
}

/// An action that reads the body, contacts the scaler, parses its reply or
/// trains.
pub open spec fn is_outside_work(action: TrainAction) -> bool {
    ||| action is ReadNextField
    ||| action is ReadFieldText
    ||| action is Rescale
    ||| action is ParseScaledReply
    ||| action is Train
}

proof fn lemma_in_progress_after_accepted_begin(
    states: Seq<TrainState>,
    events: Seq<TrainEvent>,
    actions: Seq<TrainAction>,
    k: int,
)
    requires
        handler_run(states, events, actions),
        0 <= k < states.len(),
        in_progress(states[k]),
    ensures
        accepted_begin(events[0]),
    decreases k,
{
    if k > 0 {
        assert(train_step(states[k - 1], events[k - 1], states[k], actions[k - 1]));
        if states[k - 1] is Start {
            if k - 1 > 0 {
                assert(train_step(states[k - 2], events[k - 2], states[k - 1], actions[k - 2]));
            }
        } else {
            lemma_in_progress_after_accepted_begin(states, events, actions, k - 1);
        }
    }
}

/// The query parameters are checked before anything else: no field of the
/// body is read, the scaler is not contacted and nothing is trained unless
/// the request began with parameters that passed validation.
pub proof fn lemma_params_checked_first(
    states: Seq<TrainState>,
    events: Seq<TrainEvent>,
    actions: Seq<TrainAction>,
    i: int,
)
    requires
        handler_run(states, events, actions),
        0 <= i < actions.len(),
        is_outside_work(actions[i]),
    ensures
        accepted_begin(events[0]),
{
    assert(train_step(states[i], events[i], states[i + 1], actions[i]));
    if states[i] is Start {
        if i > 0 {
            assert(train_step(states[i - 1], events[i - 1], states[i], actions[i - 1]));
        }
    } else {
        lemma_in_progress_after_accepted_begin(states, events, actions, i);
    }
}

/// A payload held while reading the body came from a `dataset` field.
pub open spec fn payload_from_dataset_field(
    states: Seq<TrainState>,
    events: Seq<TrainEvent>,
    k: int,
    p: String,
) -> bool {
    exists|j: int|
        0 <= j < k && #[trigger] events[j] == (TrainEvent::FieldText { text: p })
            && states[j] is ReadingDataset
}

proof fn lemma_payload_from_dataset_field(
    states: Seq<TrainState>,
    events: Seq<TrainEvent>,
    actions: Seq<TrainAction>,
    k: int,
    p: String,
)
    requires
        handler_run(states, events, actions),
        0 <= k < states.len(),
        states[k] == (TrainState::ReadingBody { dataset: Some(p) }) || states[k] == (
        TrainState::ReadingDataset { dataset: Some(p) }),
    ensures
        payload_from_dataset_field(states, events, k, p),
    decreases k,
{
    assert(k > 0);
    assert(train_step(states[k - 1], events[k - 1], states[k], actions[k - 1]));
    if events[k - 1] == (TrainEvent::FieldText { text: p }) && states[k - 1] is ReadingDataset {
        assert(events[k - 1] == (TrainEvent::FieldText { text: p }));
    } else {
        lemma_payload_from_dataset_field(states, events, actions, k - 1, p);
        let j = choose|j: int|
            0 <= j < k - 1 && #[trigger] events[j] == (TrainEvent::FieldText { text: p })
                && states[j] is ReadingDataset;
        assert(events[j] == (TrainEvent::FieldText { text: p }));
    }
}

/// The scaler is contacted only with the text of a field named `dataset`: a
/// body without one is answered before any request goes out.
pub proof fn lemma_rescale_sends_a_dataset_field(
    states: Seq<TrainState>,
    events: Seq<TrainEvent>,
    actions: Seq<TrainAction>,
    i: int,
    p: String,
)
    requires
        handler_run(states, events, actions),
        0 <= i < actions.len(),
        actions[i] == (TrainAction::Rescale { payload: p }),
    ensures
        payload_from_dataset_field(states, events, i, p),
{
    assert(train_step(states[i], events[i], states[i + 1], actions[i]));
    lemma_payload_from_dataset_field(states, events, actions, i, p);
}

/// Training starts only once the scaler has answered with a success status
/// and its reply carries one exponent per feature plus the one for the
/// outputs.
pub proof fn lemma_train_after_checked_reply(
    states: Seq<TrainState>,
    events: Seq<TrainEvent>,
    actions: Seq<TrainAction>,
    i: int,
)
    requires
        handler_run(states, events, actions),
        0 <= i < actions.len(),
        actions[i] is Train,
    ensures
        i >= 1,
        events[i - 1] matches TrainEvent::ScalerReply { status, .. } && is_success(status),
        events[i] matches TrainEvent::ScaledShape { feature_count, ratio_count } && ratio_count
            == feature_count + 1 && actions[i] == (TrainAction::Train {
            payload: actions[i]->Train_payload,
            feature_count,
        }),
{
    assert(train_step(states[i], events[i], states[i + 1], actions[i]));
    assert(states[i] is AwaitingShape);
    assert(i >= 1);
    assert(train_step(states[i - 1], events[i - 1], states[i], actions[i - 1]));
}

/// The costs are measured on exactly the text that was scaled: the payload a
/// run trains with is the one it sent to the scaler two steps before.
pub proof fn lemma_train_uses_the_rescaled_payload(
    states: Seq<TrainState>,
    events: Seq<TrainEvent>,
    actions: Seq<TrainAction>,
    i: int,
)
    requires
        handler_run(states, events, actions),
        0 <= i < actions.len(),
        actions[i] is Train,
    ensures
        i >= 2,
        actions[i - 2] == (TrainAction::Rescale { payload: actions[i]->Train_payload }),
{
    assert(train_step(states[i], events[i], states[i + 1], actions[i]));
    assert(states[i] is AwaitingShape);
    assert(i >= 1);
    assert(train_step(states[i - 1], events[i - 1], states[i], actions[i - 1]));
    assert(states[i - 1] is AwaitingScaler);
    assert(i >= 2);
    assert(train_step(states[i - 2], events[i - 2], states[i - 1], actions[i - 2]));
}

/// A field whose name is not `dataset` is skipped: the dataset already held
/// is kept as it was, and the next field is read.
pub proof fn lemma_other_field_keeps_dataset(
    dataset: Option<String>,
    name: Option<String>,
    next: TrainState,
    action: TrainAction,
)
    requires
        train_step(TrainState::ReadingBody { dataset }, TrainEvent::Field { name }, next, action),
        !(name matches Some(n) && n@ == "dataset"@),
    ensures
        next == (TrainState::ReadingBody { dataset }),
        action is ReadNextField,
{
}

/// A field named `dataset` has its text read, and that text replaces whatever
/// dataset was held before.
pub proof fn lemma_dataset_field_replaces_dataset(
    dataset: Option<String>,
    name: Option<String>,
    text: String,
    next: TrainState,
    action: TrainAction,
    after_text: TrainState,
    action_after_text: TrainAction,
)
    requires
        train_step(TrainState::ReadingBody { dataset }, TrainEvent::Field { name }, next, action),
        train_step(next, TrainEvent::FieldText { text }, after_text, action_after_text),
        name matches Some(n) && n@ == "dataset"@,
    ensures
        action is ReadFieldText,
        after_text == (TrainState::ReadingBody { dataset: Some(text) }),
        action_after_text is ReadNextField,
{
}

/// The text of the last `dataset` field read is what is sent to the scaler:
/// if after it only fields with other names follow before the body ends, the
/// end of the body sends exactly that text.
pub proof fn lemma_last_dataset_is_sent(
    states: Seq<TrainState>,
    events: Seq<TrainEvent>,
    actions: Seq<TrainAction>,
    j: int,
    i: int,
    text: String,
)
    requires
        handler_run(states, events, actions),
        0 <= j < i < events.len(),
        states[j] is ReadingDataset,
        events[j] == (TrainEvent::FieldText { text }),
        forall|k: int|
            j < k < i ==> (#[trigger] events[k] matches TrainEvent::Field { name } && !(name matches Some(
                n,
            ) && n@ == "dataset"@)),
        events[i] is BodyEnd,
    ensures
        actions[i] == (TrainAction::Rescale { payload: text }),
{
    lemma_dataset_held(states, events, actions, j, i, i, text);
    assert(train_step(states[i], events[i], states[i + 1], actions[i]));
}

proof fn lemma_dataset_held(
    states: Seq<TrainState>,
    events: Seq<TrainEvent>,
    actions: Seq<TrainAction>,
    j: int,
    k: int,
    i: int,
    text: String,
)
    requires
        handler_run(states, events, actions),
        0 <= j < k <= i < events.len(),
        states[j] is ReadingDataset,
        events[j] == (TrainEvent::FieldText { text }),
        forall|m: int|
            j < m < i ==> (#[trigger] events[m] matches TrainEvent::Field { name } && !(name matches Some(
                n,
            ) && n@ == "dataset"@)),
    ensures
        states[k] == (TrainState::ReadingBody { dataset: Some(text) }),
    decreases k - j,
{
    assert(train_step(states[k - 1], events[k - 1], states[k], actions[k - 1]));
    if k - 1 > j {
        lemma_dataset_held(states, events, actions, j, k - 1, i, text);
    }
}

/// The scaler's refusal of the data set is the caller's: a reply with a
/// status from 400 to 499 is answered with that same status and the scaler's
/// trimmed message; another failure status is answered with 502, and a
/// success goes on to parse the reply.
pub proof fn lemma_scaler_status_relayed(
    payload: String,
    status: u16,
    body: String,
    next: TrainState,
    action: TrainAction,
)
    requires
        train_step(
            TrainState::AwaitingScaler { payload },
            TrainEvent::ScalerReply { status, body },
            next,
            action,
        ),
        100 <= status <= 999,
    ensures
        400 <= status < 500 ==> (action matches TrainAction::Reply { status: code, text } && code
            == status && text@ == "the scaling service rejected the data set: "@ + trimmed(body@)),
        (status < 200 || 300 <= status) && !(400 <= status < 500) ==> (action matches TrainAction::Reply {
            status: code,
            ..
        } && code == 502),
        200 <= status < 300 ==> action is ParseScaledReply && next == (TrainState::AwaitingShape {
            payload,
        }),
{
}

} // verus!
