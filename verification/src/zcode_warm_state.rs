//! The state of one warm bridge: the requests that wait for an answer, the
//! session and how far its event stream has been seen, and whether the child
//! is still there.

use crate::json;
use crate::json::Json;
use crate::json::JsonModel;
use crate::protocol::ApiErrorModel;
use crate::zcode_warm;
use crate::zcode_warm::WarmMode;
use crate::zcode_warm_goal;
use crate::zcode_warm_wire;
use crate::zcode_warm_wire::answer_callback;
use crate::zcode_warm_wire::callback_note;
use crate::zcode_warm_wire::request_frame;
use crate::zcode_warm_wire::route_frame;
use crate::zcode_warm_wire::route_line;
use crate::zcode_warm_wire::write_frame;
use crate::zcode_warm_wire::ProtocolRequestError;
use crate::zcode_warm_wire::RequestErrorModel;
use crate::zcode_warm_wire::Route;
use crate::zcode_warm_wire::RouteModel;
use std::collections::HashMap;
use vstd::prelude::*;

verus! {

broadcast use {vstd::std_specs::hash::group_hash_axioms, vstd::string::group_string_axioms};

/// The state of one warm bridge.
#[verifier::ext_equal]
pub struct StateModel<T> {
    /// The id of the last request.
    pub next_id: i64,
    /// Who waits for the answer to each open request.
    pub pending: Map<i64, T>,
    /// The established session, if the handshake completed.
    pub session_id: Option<Seq<char>>,
    /// The highest sequence number seen on the session's event stream.
    pub last_event_seq: u64,
    /// Whether the child is gone.
    pub dead: bool,
    pub consecutive_failures: u32,
    pub mode: WarmMode,
}

/// The state of one warm bridge. `T` is whatever waits for an answer.
#[derive(Debug)]
pub struct WarmState<T> {
    next_id: i64,
    pending: HashMap<i64, T>,
    session_id: Option<String>,
    last_event_seq: u64,
    dead: bool,
    consecutive_failures: u32,
    mode: WarmMode,
}

impl<T> View for WarmState<T> {
    type V = StateModel<T>;

    closed spec fn view(&self) -> StateModel<T> {
        StateModel {
            next_id: self.next_id,
            pending: self.pending@,
            session_id: self.session_id.deep_view(),
            last_event_seq: self.last_event_seq,
            dead: self.dead,
            consecutive_failures: self.consecutive_failures,
            mode: self.mode,
        }
    }
}

/// A bridge whose child has just been spawned.
pub open spec fn state_start<T>(mode: WarmMode) -> StateModel<T> {
    StateModel {
        next_id: 0,
        pending: Map::empty(),
        session_id: None,
        last_event_seq: 0,
        dead: false,
        consecutive_failures: 0,
        mode,
    }
}

/// The higher of two sequence numbers.
pub open spec fn later(a: u64, b: u64) -> u64 {
    if a >= b {
        a
    } else {
        b
    }
}

/// The highest sequence number seen once an event has been seen. Older cores
/// may omit the number; those events are not tracked.
pub open spec fn seq_after(last: u64, event: JsonModel) -> u64 {
    match event.get("seq"@) {
        Some(seq) => match seq.as_u64() {
            Some(seq) => later(last, seq),
            None => last,
        },
        None => last,
    }
}

/// The synthetic event that fails whoever collects the events of a session.
pub open spec fn failed_event(session_id: Seq<char>, reason: Seq<char>) -> JsonModel {
    json::object_model().with("sessionId"@, JsonModel::Str(session_id)).with(
        "type"@,
        JsonModel::Str("turn.failed"@),
    ).with(
        "payload"@,
        json::object_model().with(
            "error"@,
            json::object_model().with("message"@, JsonModel::Str(reason)),
        ),
    )
}

/// The synthetic event for a session that may not be established yet.
pub open spec fn collector_event(session_id: Option<Seq<char>>, reason: Seq<char>) -> Option<
    JsonModel,
> {
    match session_id {
        Some(session_id) => Some(failed_event(session_id, reason)),
        None => None,
    }
}

/// A request that is registered and ready to be written.
#[derive(Debug)]
pub struct PreparedRequest {
    pub id: i64,
    pub line: String,
}

/// What a frame from the core leads to.
#[derive(Debug)]
pub enum LineEffect<T> {
    Nothing,
    /// Write this line to the core, and log the note.
    Answer { line: String, note: Option<String> },
    /// Hand this outcome to the waiter.
    Resolve { waiter: T, outcome: Result<Json, ProtocolRequestError> },
    /// Hand this event to everyone who collects.
    Publish(Json),
}

/// What a frame from the core leads to, over models.
pub enum EffectModel<T> {
    Nothing,
    Answer { line: Seq<char>, note: Option<Seq<char>> },
    Resolve { waiter: T, outcome: Result<JsonModel, RequestErrorModel> },
    Publish(JsonModel),
}

impl<T> LineEffect<T> {
    /// This effect over models.
    pub open spec fn model(self) -> EffectModel<T> {
        match self {
            LineEffect::Nothing => EffectModel::Nothing,
            LineEffect::Answer { line, note } => EffectModel::Answer {
                line: line@,
                note: note.deep_view(),
            },
            LineEffect::Resolve { waiter, outcome } => EffectModel::Resolve {
                waiter,
                outcome: zcode_warm_wire::outcome_model(outcome),
            },
            LineEffect::Publish(event) => EffectModel::Publish(event@),
        }
    }
}

/// What a frame that goes to `route` leads to.
pub open spec fn effect_of<T>(state: StateModel<T>, route: RouteModel) -> EffectModel<T> {
    match route {
        RouteModel::Callback { id, method, params } => EffectModel::Answer {
            line: zcode_warm_wire::frame_line(
                zcode_warm_wire::callback_frame(state.mode, id, method),
            ),
            note: zcode_warm_wire::callback_note_model(state.mode, method, params),
        },
        RouteModel::Response { id, outcome } => if state.pending.dom().contains(id) {
            EffectModel::Resolve { waiter: state.pending[id], outcome }
        } else {
            EffectModel::Nothing
        },
        RouteModel::Event(event) => EffectModel::Publish(event),
        RouteModel::Ignored => EffectModel::Nothing,
    }
}

/// The state once a frame that goes to `route` has been handled.
pub open spec fn state_after<T>(state: StateModel<T>, route: RouteModel) -> StateModel<T> {
    match route {
        RouteModel::Response { id, outcome } => StateModel {
            pending: state.pending.remove(id),
            ..state
        },
        RouteModel::Event(event) => StateModel {
            last_event_seq: seq_after(state.last_event_seq, event),
            ..state
        },
        _ => state,
    }
}

/// What is left to do when the child is gone: every waiter gets the error,
/// and whoever collects events gets the event.
#[derive(Debug)]
pub struct Teardown<T> {
    pub waiters: HashMap<i64, T>,
    pub error: ProtocolRequestError,
    pub event: Option<Json>,
}

/// What the waiters are told when the child closes its output.
pub open spec fn output_closed_reason() -> Seq<char> {
    "ZCode warm app-server closed its output"@
}

/// What the collectors are told when the child closes its output.
pub open spec fn exited_reason() -> Seq<char> {
    "ZCode warm app-server exited mid-turn; the turn will be retried in the same session"@
}

impl<T> WarmState<T> {
    /// No open request is newer than the last request.
    #[verifier::type_invariant]
    spec fn well_formed(self) -> bool {
        forall|id: i64| #[trigger] self.pending@.dom().contains(id) ==> id <= self.next_id
    }

    /// A bridge whose child has just been spawned.
    pub fn new(mode: WarmMode) -> (state: WarmState<T>)
        ensures
            state@ == state_start::<T>(mode),
    {
        WarmState {
            next_id: 0,
            pending: HashMap::new(),
            session_id: None,
            last_event_seq: 0,
            dead: false,
            consecutive_failures: 0,
            mode,
        }
    }

    /// Whether the child is gone.
    pub fn is_dead(&self) -> (dead: bool)
        ensures
            dead == self@.dead,
    {
        self.dead
    }

    /// How many failures have been counted since the last success.
    pub fn consecutive_failures(&self) -> (failures: u32)
        ensures
            failures == self@.consecutive_failures,
    {
        self.consecutive_failures
    }

    /// Counts a failure; the counter wraps around.
    pub fn register_failure(&mut self)
        ensures
            final(self)@ == (StateModel {
                consecutive_failures: if old(self)@.consecutive_failures == u32::MAX {
                    0
                } else {
                    (old(self)@.consecutive_failures + 1) as u32
                },
                ..old(self)@
            }),
    {
        proof {
            use_type_invariant(&*self);
        }
        self.consecutive_failures = if self.consecutive_failures == u32::MAX {
            0
        } else {
            self.consecutive_failures + 1
        };
    }

    /// Forgets the failures counted so far.
    pub fn register_success(&mut self)
        ensures
            final(self)@ == (StateModel { consecutive_failures: 0, ..old(self)@ }),
    {
        proof {
            use_type_invariant(&*self);
        }
        self.consecutive_failures = 0;
    }

    /// The established session id, if the handshake completed.
    pub fn session_id(&self) -> (session_id: Option<&str>)
        ensures
            session_id.deep_view() == self@.session_id,
    {
        match &self.session_id {
            Some(session_id) => Some(session_id.as_str()),
            None => None,
        }
    }

    /// Records the session of a completed handshake. A bridge has one session:
    /// an established one stays.
    pub fn establish(&mut self, session_id: &str)
        ensures
            final(self)@ == (StateModel {
                session_id: match old(self)@.session_id {
                    Some(established) => Some(established),
                    None => Some(session_id@),
                },
                ..old(self)@
            }),
    {
        proof {
            use_type_invariant(&*self);
        }
        if self.session_id.is_none() {
            self.session_id = Some(session_id.to_owned());
        }
    }

    /// Highest `seq` seen on the session's event stream, or 0 before any.
    pub fn last_event_seq(&self) -> (seq: u64)
        ensures
            seq == self@.last_event_seq,
    {
        self.last_event_seq
    }

    /// Folds an observed sequence number into [`Self::last_event_seq`].
    pub fn observe_event_seq(&mut self, seq: u64)
        ensures
            final(self)@ == (StateModel {
                last_event_seq: later(old(self)@.last_event_seq, seq),
                ..old(self)@
            }),
    {
        proof {
            use_type_invariant(&*self);
        }
        if seq > self.last_event_seq {
            self.last_event_seq = seq;
        }
    }

    /// Folds a `session/event` envelope into [`Self::last_event_seq`].
    pub fn record_event_seq(&mut self, event: &Json)
        ensures
            final(self)@ == (StateModel {
                last_event_seq: seq_after(old(self)@.last_event_seq, event@),
                ..old(self)@
            }),
    {
        if let Some(seq) = event.get("seq") {
            if let Some(seq) = seq.as_u64() {
                self.observe_event_seq(seq);
            }
        }
    }

    /// Whether a fresh request id is left.
    pub fn has_free_id(&self) -> (free: bool)
        ensures
            free == (self@.next_id < i64::MAX),
    {
        self.next_id < i64::MAX
    }

    /// Registers a request under a fresh id and gives the line to write. A
    /// bridge whose child is gone takes no request.
    pub fn begin_request(&mut self, method: &str, params: Json, waiter: T) -> (prepared: Result<
        PreparedRequest,
        ProtocolRequestError,
    >)
        requires
            old(self)@.next_id < i64::MAX,
        ensures
            match prepared {
                Ok(request) => {
                    &&& !old(self)@.dead
                    &&& request.id == old(self)@.next_id + 1
                    &&& !old(self)@.pending.dom().contains(request.id)
                    &&& request.line@ == zcode_warm_wire::frame_line(
                        zcode_warm_wire::request_frame_model(request.id, method@, params@),
                    )
                    &&& final(self)@ == (StateModel {
                        next_id: request.id,
                        pending: old(self)@.pending.insert(request.id, waiter),
                        ..old(self)@
                    })
                },
                Err(error) => {
                    &&& old(self)@.dead
                    &&& error.deep_view() == zcode_warm_wire::plain_error(
                        "ZCode warm app-server is no longer running"@,
                    )
                    &&& final(self)@ == old(self)@
                },
            },
    {
        proof {
            use_type_invariant(&*self);
        }
        if self.dead {
            return Err(
                ProtocolRequestError::plain(
                    "ZCode warm app-server is no longer running".to_owned(),
                ),
            );
        }
        let id: i64 = self.next_id + 1;
        let mut pending: HashMap<i64, T> = HashMap::new();
        std::mem::swap(&mut pending, &mut self.pending);
        pending.insert(id, waiter);
        self.next_id = id;
        self.pending = pending;
        let frame = request_frame(id, method, params);
        Ok(PreparedRequest { id, line: write_frame(&frame) })
    }

    fn take_waiter(&mut self, id: i64) -> (waiter: Option<T>)
        ensures
            final(self)@ == (StateModel { pending: old(self)@.pending.remove(id), ..old(self)@ }),
            waiter == (if old(self)@.pending.dom().contains(id) {
                Some(old(self)@.pending[id])
            } else {
                None
            }),
    {
        proof {
            use_type_invariant(&*self);
        }
        let mut pending: HashMap<i64, T> = HashMap::new();
        std::mem::swap(&mut pending, &mut self.pending);
        let waiter = pending.remove(&id);
        self.pending = pending;
        assert(self@.pending =~= old(self)@.pending.remove(id));
        waiter
    }

    /// Withdraws a request whose line could not be written, and gives the
    /// error its caller gets.
    pub fn abandon_request(&mut self, id: i64, method: &str, error: &str) -> (failed:
        ProtocolRequestError)
        ensures
            final(self)@ == (StateModel { pending: old(self)@.pending.remove(id), ..old(self)@ }),
            failed.deep_view() == zcode_warm_wire::plain_error(
                "could not send "@ + method@ + " to ZCode warm app-server: "@ + error@,
            ),
    {
        let _ = self.take_waiter(id);
        ProtocolRequestError::plain(
            "could not send ".to_owned().concat(method).concat(
                " to ZCode warm app-server: ",
            ).concat(error),
        )
    }

    /// Follows a frame from the core to where it goes.
    fn follow(&mut self, route: Route) -> (effect: LineEffect<T>)
        ensures
            final(self)@ == state_after(old(self)@, route.deep_view()),
            effect.model() == effect_of(old(self)@, route.deep_view()),
    {
        match route {
            Route::Callback { id, method, params } => {
                let note = callback_note(self.mode, method.as_str(), &params);
                let answer = answer_callback(self.mode, id, method.as_str());
                LineEffect::Answer { line: write_frame(&answer), note }
            },
            Route::Response { id, outcome } => match self.take_waiter(id) {
                Some(waiter) => LineEffect::Resolve { waiter, outcome },
                None => LineEffect::Nothing,
            },
            Route::Event(event) => {
                self.record_event_seq(&event);
                LineEffect::Publish(event)
            },
            Route::Ignored => LineEffect::Nothing,
        }
    }

    /// Handles one frame from the core.
    pub fn handle_frame(&mut self, frame: &Json) -> (effect: LineEffect<T>)
        ensures
            final(self)@ == state_after(old(self)@, zcode_warm_wire::route_of(frame@)),
            effect.model() == effect_of(old(self)@, zcode_warm_wire::route_of(frame@)),
    {
        self.follow(route_frame(frame))
    }

    /// Handles one line from the core. What is no JSON is noise from nested
    /// processes.
    pub fn handle_line(&mut self, line: &str) -> (effect: LineEffect<T>)
        ensures
            final(self)@ == state_after(old(self)@, zcode_warm_wire::route_of_line(line@)),
            effect.model() == effect_of(old(self)@, zcode_warm_wire::route_of_line(line@)),
    {
        self.follow(route_line(line))
    }

    /// Gives up on every open request.
    fn fail_pending(&mut self) -> (failed: HashMap<i64, T>)
        ensures
            final(self)@ == (StateModel { pending: Map::empty(), ..old(self)@ }),
            failed@ == old(self)@.pending,
    {
        proof {
            use_type_invariant(&*self);
        }
        let mut failed: HashMap<i64, T> = HashMap::new();
        std::mem::swap(&mut failed, &mut self.pending);
        failed
    }

    /// The synthetic event that fails whoever collects this session's events.
    /// A collector whose request was already answered only watches the event
    /// stream; without this it would wait out the whole idle window.
    fn fail_collectors(&self, reason: &str) -> (event: Option<Json>)
        ensures
            event.deep_view() == collector_event(self@.session_id, reason@),
    {
        match &self.session_id {
            Some(session_id) => Some(
                Json::object().with("sessionId", Json::text(session_id.as_str())).with(
                    "type",
                    Json::text("turn.failed"),
                ).with(
                    "payload",
                    Json::object().with(
                        "error",
                        Json::object().with("message", Json::text(reason)),
                    ),
                ),
            ),
            None => None,
        }
    }

    /// Marks the child as gone, and says whom to fail. A bridge that is dead
    /// already has nothing left to do.
    pub fn kill(&mut self, reason: &str) -> (teardown: Option<Teardown<T>>)
        ensures
            teardown is None <==> old(self)@.dead,
            final(self)@ == (if old(self)@.dead {
                old(self)@
            } else {
                StateModel { dead: true, pending: Map::empty(), ..old(self)@ }
            }),
            teardown matches Some(teardown) ==> {
                &&& teardown.waiters@ == old(self)@.pending
                &&& teardown.error.deep_view() == zcode_warm_wire::plain_error(reason@)
                &&& teardown.event.deep_view() == collector_event(old(self)@.session_id, reason@)
            },
    {
        proof {
            use_type_invariant(&*self);
        }
        if self.dead {
            return None;
        }
        self.dead = true;
        let waiters = self.fail_pending();
        Some(
            Teardown {
                waiters,
                error: ProtocolRequestError::plain(reason.to_owned()),
                event: self.fail_collectors(reason),
            },
        )
    }

    /// Marks the child as gone because it closed its output, and says whom to
    /// fail.
    pub fn output_closed(&mut self) -> (teardown: Teardown<T>)
        ensures
            final(self)@ == (StateModel { dead: true, pending: Map::empty(), ..old(self)@ }),
            teardown.waiters@ == old(self)@.pending,
            teardown.error.deep_view() == zcode_warm_wire::plain_error(output_closed_reason()),
            teardown.event.deep_view() == collector_event(
                old(self)@.session_id,
                exited_reason(),
            ),
    {
        proof {
            use_type_invariant(&*self);
        }
        self.dead = true;
        let waiters = self.fail_pending();
        Teardown {
            waiters,
            error: ProtocolRequestError::plain("ZCode warm app-server closed its output".to_owned()),
            event: self.fail_collectors(
                "ZCode warm app-server exited mid-turn; the turn will be retried in the same session",
            ),
        }
    }
}

/// The highest sequence number seen never goes back, whatever the core sends.
pub proof fn law_event_seq_never_goes_back<T>(state: StateModel<T>, route: RouteModel)
    ensures
        state_after(state, route).last_event_seq >= state.last_event_seq,
{
}

/// A request is answered at most once: once a response to it has been handled,
/// another one leads to nothing.
pub proof fn law_request_is_answered_once<T>(
    state: StateModel<T>,
    id: i64,
    first: Result<JsonModel, RequestErrorModel>,
    second: Result<JsonModel, RequestErrorModel>,
)
    ensures
        ({
            let after = state_after(state, RouteModel::Response { id, outcome: first });
            &&& !after.pending.dom().contains(id)
            &&& effect_of(after, RouteModel::Response { id, outcome: second })
                is Nothing
        }),
{
}

/// A response reaches exactly the waiter of its own request: the others keep
/// waiting.
pub proof fn law_response_leaves_other_requests_open<T>(
    state: StateModel<T>,
    id: i64,
    outcome: Result<JsonModel, RequestErrorModel>,
    other: i64,
)
    requires
        other != id,
    ensures
        ({
            let after = state_after(state, RouteModel::Response { id, outcome });
            &&& after.pending.dom().contains(other) <==> state.pending.dom().contains(other)
            &&& state.pending.dom().contains(other) ==> after.pending[other]
                == state.pending[other]
        }),
{
}

/// The event that a dying bridge publishes fails the turn that is being
/// collected at once, with the reason of the death.
pub proof fn law_teardown_fails_the_collector(turn: zcode_warm::TurnModel, reason: Seq<char>)
    ensures
        ({
            let input = zcode_warm::InputModel::Notification(
                failed_event(turn.session_id, reason),
            );
            &&& zcode_warm::turn_after(turn, input).ended
            &&& zcode_warm::turn_actions(turn, input) == seq![
                zcode_warm::ActionModel::Fail(ApiErrorModel::Stream(reason)),
            ]
        }),
{
    lemma_failed_event_fields(turn.session_id, reason);
    zcode_warm_goal::lemma_event_types_differ();
    let event = failed_event(turn.session_id, reason);
    let payload = zcode_warm::payload_of(event);
    assert(zcode_warm::failure_message(payload) == Some(reason));
    assert(zcode_warm::turn_actions(turn, zcode_warm::InputModel::Notification(event)) =~= seq![
        zcode_warm::ActionModel::Fail(ApiErrorModel::Stream(reason)),
    ]);
}

/// The event that a dying bridge publishes fails the goal loop that is being
/// collected in the same way.
pub proof fn law_teardown_fails_the_goal_loop(goal: zcode_warm_goal::GoalModel, reason: Seq<char>)
    ensures
        ({
            let input = zcode_warm::InputModel::Notification(
                failed_event(goal.session_id, reason),
            );
            &&& zcode_warm_goal::goal_after(goal, input).ended
            &&& zcode_warm_goal::goal_actions(goal, input) == seq![
                zcode_warm::ActionModel::Fail(ApiErrorModel::Stream(reason)),
            ]
        }),
{
    lemma_failed_event_fields(goal.session_id, reason);
    zcode_warm_goal::lemma_event_types_differ();
}

proof fn lemma_failed_event_fields(session_id: Seq<char>, reason: Seq<char>)
    ensures
        ({
            let event = failed_event(session_id, reason);
            let payload = zcode_warm::payload_of(event);
            &&& event.str_at("sessionId"@) == Some(session_id)
            &&& event.str_at("type"@) == Some("turn.failed"@)
            &&& payload.get("error"@) == Some(
                json::object_model().with("message"@, JsonModel::Str(reason)),
            )
            &&& zcode_warm::str_in_detail(payload, "message"@) == Some(reason)
            &&& zcode_warm::str_in_detail(payload, "code"@) is None
        }),
{
    reveal_strlit("sessionId");
    reveal_strlit("type");
    reveal_strlit("payload");
    reveal_strlit("message");
    reveal_strlit("code");
    assert("sessionId"@.len() != "type"@.len());
    assert("sessionId"@.len() != "payload"@.len());
    assert("type"@.len() != "payload"@.len());
    assert("message"@.len() != "code"@.len());
}

/// A bridge starts alive, in its mode, with no session, no open request, no
/// event seen and no failure counted.
pub proof fn law_a_bridge_starts_afresh<T>(mode: WarmMode)
    ensures
        ({
            let state = state_start::<T>(mode);
            &&& state.next_id == 0
            &&& forall|id: i64| !#[trigger] state.pending.dom().contains(id)
            &&& state.session_id is None
            &&& state.last_event_seq == 0
            &&& !state.dead
            &&& state.consecutive_failures == 0
            &&& state.mode == mode
        }),
{
}

/// An event moves the highest sequence number seen up to its own, where it has a
/// whole number for one and that is higher, and else leaves it.
pub proof fn law_the_highest_sequence_number_counts(last: u64, event: JsonModel, seq: u64)
    ensures
        json::has_member(event, "seq"@, JsonModel::Int(seq as int)) && seq > last ==> seq_after(
            last,
            event,
        ) == seq,
        json::has_member(event, "seq"@, JsonModel::Int(seq as int)) && seq <= last ==> seq_after(
            last,
            event,
        ) == last,
        event.get("seq"@) is None ==> seq_after(last, event) == last,
        event.get("seq"@) is Some && event.get("seq"@)->0.as_u64() is None ==> seq_after(last, event)
            == last,
        later(last, seq) >= last && later(last, seq) >= seq,
        later(last, seq) == last || later(last, seq) == seq,
{
}

/// A bridge with a session fails its collectors by an event of that session
/// which says why; one without a session has none to fail.
pub proof fn law_collectors_are_told_why(
    session_id: Seq<char>,
    reason: Seq<char>,
    key: Seq<char>,
    inner: JsonModel,
)
    ensures
        collector_event(None, reason) is None,
        collector_event(Some(session_id), reason) matches Some(event) && (json::has_member(
            event,
            key,
            inner,
        ) <==> {
            ||| key == "sessionId"@ && inner == JsonModel::Str(session_id)
            ||| key == "type"@ && inner == JsonModel::Str("turn.failed"@)
            ||| key == "payload"@ && inner == json::object_model().with(
                "error"@,
                json::object_model().with("message"@, JsonModel::Str(reason)),
            )
        }),
        output_closed_reason() == "ZCode warm app-server closed its output"@,
        exited_reason()
            == "ZCode warm app-server exited mid-turn; the turn will be retried in the same session"@,
{
    reveal_strlit("sessionId");
    reveal_strlit("type");
    reveal_strlit("payload");
    assert("sessionId"@.len() == 9 && "type"@.len() == 4 && "payload"@.len() == 7);
}

/// A callback is answered and logged, and changes nothing; a response goes to
/// the waiter of its request, and to no one where there is none, and closes that
/// request; an event is handed on as it is, and its number is noted; what is
/// ignored leads to nothing.
pub proof fn law_a_frame_leads_to_its_effect<T>(
    state: StateModel<T>,
    id: JsonModel,
    method: Seq<char>,
    params: JsonModel,
    number: i64,
    outcome: Result<JsonModel, RequestErrorModel>,
    event: JsonModel,
)
    ensures
        ({
            let route = RouteModel::Callback { id, method, params };
            &&& state_after(state, route) == state
            &&& effect_of(state, route) matches EffectModel::Answer { line, note } && {
                &&& line == json::json_text(
                    zcode_warm_wire::callback_frame(state.mode, id, method),
                ).push('\n')
                &&& note == zcode_warm_wire::callback_note_model(state.mode, method, params)
            }
        }),
        ({
            let route = RouteModel::Response { id: number, outcome };
            let after = state_after(state, route);
            &&& state.pending.dom().contains(number) ==> effect_of(state, route) == (
            EffectModel::Resolve { waiter: state.pending[number], outcome })
            &&& !state.pending.dom().contains(number) ==> effect_of(state, route) is Nothing
            &&& after == StateModel { pending: after.pending, ..state }
            &&& after.pending == state.pending.remove(number)
        }),
        ({
            let route = RouteModel::Event(event);
            &&& effect_of(state, route) == EffectModel::<T>::Publish(event)
            &&& state_after(state, route) == (StateModel {
                last_event_seq: seq_after(state.last_event_seq, event),
                ..state
            })
        }),
        effect_of(state, RouteModel::Ignored) is Nothing,
        state_after(state, RouteModel::Ignored) == state,
{
    zcode_warm_wire::law_a_request_is_framed_whole(
        number,
        method,
        params,
        method,
        params,
        zcode_warm_wire::callback_frame(state.mode, id, method),
    );
}

/// An effect is modelled by all that it holds.
pub proof fn law_effects_are_modelled_by_what_they_hold<T>(effect: LineEffect<T>)
    ensures
        match effect {
            LineEffect::Nothing => effect.model() is Nothing,
            LineEffect::Answer { line, note } => effect.model() == (EffectModel::<T>::Answer {
                line: line@,
                note: note.deep_view(),
            }),
            LineEffect::Resolve { waiter, outcome } => effect.model() == (EffectModel::Resolve {
                waiter,
                outcome: zcode_warm_wire::outcome_model(outcome),
            }),
            LineEffect::Publish(event) => effect.model() == EffectModel::<T>::Publish(event@),
        },
{
}

/// A failure counts one more, and a success none; the first session that is
/// established stays; nothing else changes.
pub proof fn law_failures_count_and_sessions_stay<T>(
    failing: &mut WarmState<T>,
    succeeding: &mut WarmState<T>,
    establishing: &mut WarmState<T>,
    session_id: &str,
)
    requires
        call_ensures(WarmState::<T>::register_failure, (failing,), ()),
        call_ensures(WarmState::<T>::register_success, (succeeding,), ()),
        call_ensures(WarmState::<T>::establish, (establishing, session_id), ()),
    ensures
        old(failing)@.consecutive_failures < u32::MAX ==> final(failing)@ == (StateModel {
            consecutive_failures: (old(failing)@.consecutive_failures + 1) as u32,
            ..old(failing)@
        }),
        final(succeeding)@ == (StateModel { consecutive_failures: 0, ..old(succeeding)@ }),
        old(establishing)@.session_id is Some ==> final(establishing)@ == old(establishing)@,
        old(establishing)@.session_id is None ==> final(establishing)@ == (StateModel {
            session_id: Some(session_id@),
            ..old(establishing)@
        }),
{
}

/// A request goes out under an id that no open request has, is written whole,
/// and its waiter waits under that id next to the others. A bridge whose child
/// is gone sends nothing and changes nothing.
pub proof fn law_a_request_waits_under_its_own_id<T>(
    state: &mut WarmState<T>,
    method: &str,
    params: Json,
    waiter: T,
    prepared: Result<PreparedRequest, ProtocolRequestError>,
)
    requires
        call_ensures(WarmState::<T>::begin_request, (state, method, params, waiter), prepared),
    ensures
        prepared is Ok <==> !old(state)@.dead,
        prepared matches Ok(request) ==> {
            &&& request.id > old(state)@.next_id
            &&& !old(state)@.pending.dom().contains(request.id)
            &&& final(state)@.pending == old(state)@.pending.insert(request.id, waiter)
            &&& final(state)@.next_id == request.id
            &&& final(state)@.session_id == old(state)@.session_id
            &&& final(state)@.last_event_seq == old(state)@.last_event_seq
            &&& !final(state)@.dead
            &&& request.line@ == json::json_text(
                zcode_warm_wire::request_frame_model(request.id, method@, params@),
            ).push('\n')
        },
        prepared matches Err(error) ==> {
            &&& final(state)@ == old(state)@
            &&& error.message@ == "ZCode warm app-server is no longer running"@
            &&& error.unrecognized_keys@.len() == 0
        },
{
    if let Ok(request) = prepared {
        let frame = zcode_warm_wire::request_frame_model(request.id, method@, params@);
        zcode_warm_wire::law_a_request_is_framed_whole(
            request.id,
            method@,
            params@,
            method@,
            params@,
            frame,
        );
    }
    if let Err(error) = prepared {
        assert(error.deep_view().unrecognized_keys.len() == error.unrecognized_keys@.len());
    }
}

/// A request that could not be sent waits no longer, and its caller is told what
/// could not be sent and why.
pub proof fn law_an_unsent_request_is_withdrawn<T>(
    state: &mut WarmState<T>,
    id: i64,
    method: &str,
    error: &str,
    failed: ProtocolRequestError,
)
    requires
        call_ensures(WarmState::<T>::abandon_request, (state, id, method, error), failed),
    ensures
        final(state)@ == (StateModel { pending: old(state)@.pending.remove(id), ..old(state)@ }),
        failed.message@ == "could not send "@ + method@ + " to ZCode warm app-server: "@ + error@,
{
}

/// A bridge dies once: every request that was open then is failed for the
/// reason, and so is whoever collects. A bridge that is dead already does
/// nothing more.
pub proof fn law_a_bridge_dies_once<T>(
    state: &mut WarmState<T>,
    reason: &str,
    teardown: Option<Teardown<T>>,
)
    requires
        call_ensures(WarmState::<T>::kill, (state, reason), teardown),
    ensures
        final(state)@.dead,
        teardown is Some <==> !old(state)@.dead,
        old(state)@.dead ==> final(state)@ == old(state)@,
        teardown matches Some(left) ==> {
            &&& left.waiters@ == old(state)@.pending
            &&& final(state)@ == (StateModel { dead: true, pending: Map::empty(), ..old(state)@ })
            &&& left.error.message@ == reason@
            &&& old(state)@.session_id matches Some(session_id) ==> left.event.deep_view() == Some(
                failed_event(session_id, reason@),
            )
            &&& old(state)@.session_id is None ==> left.event is None
        },
{
}

/// A child that closes its output leaves a dead bridge: every open request is
/// failed, and whoever collects is told that the turn will be tried again.
pub proof fn law_a_closed_output_fails_everyone<T>(
    state: &mut WarmState<T>,
    teardown: Teardown<T>,
)
    requires
        call_ensures(WarmState::<T>::output_closed, (state,), teardown),
    ensures
        final(state)@ == (StateModel { dead: true, pending: Map::empty(), ..old(state)@ }),
        teardown.waiters@ == old(state)@.pending,
        teardown.error.message@ == "ZCode warm app-server closed its output"@,
        old(state)@.session_id matches Some(session_id) ==> teardown.event.deep_view() == Some(
            failed_event(
                session_id,
                "ZCode warm app-server exited mid-turn; the turn will be retried in the same session"@,
            ),
        ),
        old(state)@.session_id is None ==> teardown.event is None,
{
}

/// A line from the core does to a bridge what its frame does, and a fresh bridge
/// starts as one.
pub proof fn law_a_line_does_what_its_frame_does<T>(
    mode: WarmMode,
    fresh: WarmState<T>,
    state: &mut WarmState<T>,
    line: &str,
    effect: LineEffect<T>,
)
    requires
        call_ensures(WarmState::<T>::new, (mode,), fresh),
        call_ensures(WarmState::<T>::handle_line, (state, line), effect),
    ensures
        fresh@ == state_start::<T>(mode),
        final(state)@ == state_after(old(state)@, zcode_warm_wire::route_of_line(line@)),
        effect.model() == effect_of(old(state)@, zcode_warm_wire::route_of_line(line@)),
{
}

/// An event that is seen moves the highest sequence number up, and nothing else.
pub proof fn law_a_seen_event_moves_the_number_up<T>(
    observing: &mut WarmState<T>,
    seq: u64,
    recording: &mut WarmState<T>,
    event: &Json,
)
    requires
        call_ensures(WarmState::<T>::observe_event_seq, (observing, seq), ()),
        call_ensures(WarmState::<T>::record_event_seq, (recording, event), ()),
    ensures
        final(observing)@ == (StateModel {
            last_event_seq: if seq > old(observing)@.last_event_seq {
                seq
            } else {
                old(observing)@.last_event_seq
            },
            ..old(observing)@
        }),
        final(recording)@ == (StateModel {
            last_event_seq: seq_after(old(recording)@.last_event_seq, event@),
            ..old(recording)@
        }),
{
}

} // verus!
