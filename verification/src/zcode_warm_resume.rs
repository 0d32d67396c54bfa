//! Session establishment for the warm bridge: pick a previous session back up,
//! or create a fresh one.
//!
//! A bridge that replaces one whose child died resumes the session it had. A
//! session recorded by an earlier process is first looked up on the server.
//! Whatever fails on the way ends in a fresh session, so a lost session only
//! ever costs the warmth of its cache.

use crate::json;
use crate::json::text_at;
use crate::json::Json;
use crate::json::JsonModel;
use crate::text;
use crate::text::str_eq;
use crate::zcode_warm;
use crate::zcode_warm::WarmMode;
use crate::zcode_warm_store::RecordModel;
use crate::zcode_warm_store::ZcodeWarmRecord;
use vstd::prelude::*;

verus! {

broadcast use vstd::string::group_string_axioms;

/// Where a replacement bridge looks for the session to pick back up.
#[derive(Debug)]
pub enum SessionSeed {
    /// Establish a fresh session.
    Fresh,
    /// The bridge this one replaced died with this session established.
    Predecessor(String),
    /// A session recorded for this thread by a previous process; the server
    /// has to confirm it before it is resumed.
    Recorded(ZcodeWarmRecord),
}

/// Where a replacement bridge looks for its session, over models.
pub enum SeedModel {
    Fresh,
    Predecessor(Seq<char>),
    Recorded(RecordModel),
}

impl DeepView for SessionSeed {
    type V = SeedModel;

    open spec fn deep_view(&self) -> SeedModel {
        match self {
            SessionSeed::Fresh => SeedModel::Fresh,
            SessionSeed::Predecessor(session_id) => SeedModel::Predecessor(session_id@),
            SessionSeed::Recorded(record) => SeedModel::Recorded(record.deep_view()),
        }
    }
}

/// The workspace that a session is pinned to.
pub open spec fn workspace_model(workspace_path: Seq<char>) -> JsonModel {
    json::object_model().with("workspacePath"@, JsonModel::Str(workspace_path)).with(
        "workspaceKey"@,
        JsonModel::Str(workspace_path),
    )
}

fn workspace_value(workspace_path: &str) -> (value: Json)
    ensures
        value@ == workspace_model(workspace_path@),
{
    Json::object().with("workspacePath", Json::text(workspace_path)).with(
        "workspaceKey",
        Json::text(workspace_path),
    )
}

/// Which answer the handshake waits for.
pub enum StageModel {
    /// To the look-up of a recorded session.
    Listing(Seq<char>),
    /// To the resumption of a session.
    Resuming(Seq<char>),
    /// To the subscription of a resumed session.
    ResumeSubscribing(Seq<char>),
    /// To the creation of a session.
    Creating,
    /// To the subscription of a created session.
    CreateSubscribing(Seq<char>),
    /// To none: the handshake is over.
    Over,
}

/// Which answer the handshake waits for.
#[derive(Debug)]
pub enum Stage {
    Listing(String),
    Resuming(String),
    ResumeSubscribing(String),
    Creating,
    CreateSubscribing(String),
    Over,
}

impl DeepView for Stage {
    type V = StageModel;

    open spec fn deep_view(&self) -> StageModel {
        match self {
            Stage::Listing(session_id) => StageModel::Listing(session_id@),
            Stage::Resuming(session_id) => StageModel::Resuming(session_id@),
            Stage::ResumeSubscribing(session_id) => StageModel::ResumeSubscribing(session_id@),
            Stage::Creating => StageModel::Creating,
            Stage::CreateSubscribing(session_id) => StageModel::CreateSubscribing(session_id@),
            Stage::Over => StageModel::Over,
        }
    }
}

/// The request whose answer a stage waits for.
pub open spec fn stage_method(stage: StageModel) -> Seq<char> {
    match stage {
        StageModel::Listing(_) => "session/list"@,
        StageModel::Resuming(_) => "session/resume"@,
        StageModel::ResumeSubscribing(_) => "session/subscribe"@,
        StageModel::Creating => "session/create"@,
        StageModel::CreateSubscribing(_) => "session/subscribe"@,
        StageModel::Over => ""@,
    }
}

/// The params of the request whose answer a stage waits for.
pub open spec fn stage_params(
    stage: StageModel,
    workspace_path: Seq<char>,
    mode: WarmMode,
) -> JsonModel {
    match stage {
        StageModel::Listing(session_id) => json::object_model().with(
            "sessionIds"@,
            JsonModel::Array(seq![JsonModel::Str(session_id)]),
        ).with("workspace"@, workspace_model(workspace_path)),
        StageModel::Resuming(session_id) => json::object_model().with(
            "sessionId"@,
            JsonModel::Str(session_id),
        ).with("workspace"@, workspace_model(workspace_path)),
        StageModel::ResumeSubscribing(session_id) => subscribe_model(session_id),
        StageModel::Creating => json::object_model().with(
            "workspace"@,
            workspace_model(workspace_path),
        ).with("mode"@, JsonModel::Str(zcode_warm::mode_name(mode))).with(
            "titleGenerationEnabled"@,
            JsonModel::Bool(false),
        ),
        StageModel::CreateSubscribing(session_id) => subscribe_model(session_id),
        StageModel::Over => JsonModel::Null,
    }
}

/// The params of a subscription to a session's live events.
pub open spec fn subscribe_model(session_id: Seq<char>) -> JsonModel {
    json::object_model().with("sessionId"@, JsonModel::Str(session_id)).with(
        "deliveryKind"@,
        JsonModel::Str("desktop-continuous"@),
    )
}

fn subscribe_params(session_id: &str) -> (params: Json)
    ensures
        params@ == subscribe_model(session_id@),
{
    Json::object().with("sessionId", Json::text(session_id)).with(
        "deliveryKind",
        Json::text("desktop-continuous"),
    )
}

/// Whether a list of sessions names a session.
pub open spec fn lists(sessions: Seq<JsonModel>, session_id: Seq<char>) -> bool {
    exists|i: int|
        0 <= i < sessions.len() && (#[trigger] sessions[i]).str_at("sessionId"@) == Some(session_id)
}

/// Whether the answer to a look-up confirms a session.
pub open spec fn confirms(answer: JsonModel, session_id: Seq<char>) -> bool {
    match answer.get("sessions"@) {
        Some(JsonModel::Array(sessions)) => lists(sessions, session_id),
        _ => false,
    }
}

/// Whether the answer to a look-up confirms a session.
pub fn confirms_session(answer: &Json, session_id: &str) -> (confirmed: bool)
    ensures
        confirmed == confirms(answer@, session_id@),
{
    let sessions = match answer.get("sessions") {
        Some(sessions) => match sessions.as_array() {
            Some(sessions) => sessions,
            None => return false,
        },
        None => return false,
    };
    let mut i: usize = 0;
    while i < sessions.len()
        invariant
            i <= sessions@.len(),
            confirms(answer@, session_id@) == lists(sessions.deep_view(), session_id@),
            forall|j: int|
                0 <= j < i ==> (#[trigger] sessions.deep_view()[j]).str_at("sessionId"@) != Some(
                    session_id@,
                ),
        decreases sessions@.len() - i,
    {
        if text::opt_str_is(sessions[i].str_at("sessionId"), session_id) {
            assert(sessions.deep_view()[i as int].str_at("sessionId"@) == Some(session_id@));
            return true;
        }
        i = i + 1;
    }
    false
}

/// The stage that a seed starts the handshake in. A record of another
/// workspace is not looked up.
pub open spec fn first_stage(seed: SeedModel, workspace_path: Seq<char>) -> StageModel {
    match seed {
        SeedModel::Fresh => StageModel::Creating,
        SeedModel::Predecessor(session_id) => StageModel::Resuming(session_id),
        SeedModel::Recorded(record) => if record.workspace_path == workspace_path {
            StageModel::Listing(record.zcode_session_id)
        } else {
            StageModel::Creating
        },
    }
}

/// The session that the answer to a creation names.
pub open spec fn created_session(answer: JsonModel) -> Option<Seq<char>> {
    json::str_in(answer.get("session"@), "sessionId"@)
}

/// How a handshake ended: the session, or why there is none.
pub open spec fn handshake_result(
    stage: StageModel,
    answer: Result<JsonModel, Seq<char>>,
) -> Result<Seq<char>, Seq<char>> {
    match (stage, answer) {
        (StageModel::ResumeSubscribing(session_id), Ok(_)) => Ok(session_id),
        (StageModel::CreateSubscribing(session_id), Ok(_)) => Ok(session_id),
        (_, Ok(created)) => Err(
            "session/create response carried no sessionId: "@ + json::json_text(created),
        ),
        (_, Err(message)) => Err(message),
    }
}

/// The stage after an answer. Whatever keeps a session from being picked up
/// leads to the creation of a fresh one.
pub open spec fn stage_after(stage: StageModel, answer: Result<JsonModel, Seq<char>>) -> StageModel {
    match (stage, answer) {
        (StageModel::Listing(session_id), Ok(answer)) => if confirms(answer, session_id) {
            StageModel::Resuming(session_id)
        } else {
            StageModel::Creating
        },
        (StageModel::Resuming(session_id), Ok(_)) => StageModel::ResumeSubscribing(session_id),
        (StageModel::Listing(_), Err(_)) => StageModel::Creating,
        (StageModel::Resuming(_), Err(_)) => StageModel::Creating,
        (StageModel::ResumeSubscribing(_), Err(_)) => StageModel::Creating,
        (StageModel::Creating, Ok(created)) => match created_session(created) {
            Some(session_id) => StageModel::CreateSubscribing(session_id),
            None => StageModel::Over,
        },
        _ => StageModel::Over,
    }
}

/// The head of the event stream that the answer to a subscription pins.
pub open spec fn subscribed_seq(stage: StageModel, answer: Result<JsonModel, Seq<char>>) -> Option<
    u64,
> {
    match (stage, answer) {
        (StageModel::ResumeSubscribing(_), Ok(answer)) => event_seq(answer),
        (StageModel::CreateSubscribing(_), Ok(answer)) => event_seq(answer),
        _ => None,
    }
}

/// The stream head that an answer carries.
pub open spec fn event_seq(answer: JsonModel) -> Option<u64> {
    match answer.get("eventSeq"@) {
        Some(seq) => seq.as_u64(),
        None => None,
    }
}

fn stream_head(answer: &Json) -> (seq: Option<u64>)
    ensures
        seq == event_seq(answer@),
{
    match answer.get("eventSeq") {
        Some(seq) => seq.as_u64(),
        None => None,
    }
}

/// What the handshake asks for next.
#[derive(Debug)]
pub enum HandshakeStep {
    /// Send this request and hand its answer back.
    Request { method: &'static str, params: Json },
    /// The handshake is over; on success the head of the session's event
    /// stream comes along, where the core reported it.
    Done { result: Result<String, String>, event_seq: Option<u64> },
}

/// The state of a handshake.
pub struct HandshakeModel {
    pub workspace_path: Seq<char>,
    pub mode: WarmMode,
    pub stage: StageModel,
}

/// Establishes the session of one bridge, one request at a time.
#[derive(Debug)]
pub struct Handshake {
    workspace_path: String,
    mode: WarmMode,
    stage: Stage,
}

impl View for Handshake {
    type V = HandshakeModel;

    closed spec fn view(&self) -> HandshakeModel {
        HandshakeModel {
            workspace_path: self.workspace_path@,
            mode: self.mode,
            stage: self.stage.deep_view(),
        }
    }
}

/// Whether a step asks for the request of the stage that the handshake is in.
pub open spec fn asks(step: HandshakeStep, handshake: HandshakeModel) -> bool {
    step matches HandshakeStep::Request { method, params } && {
        &&& method@ == stage_method(handshake.stage)
        &&& params@ == stage_params(handshake.stage, handshake.workspace_path, handshake.mode)
    }
}

impl Handshake {
    /// A handshake that starts from `seed`.
    pub fn new(seed: &SessionSeed, workspace_path: &str, mode: WarmMode) -> (handshake: Handshake)
        ensures
            handshake@.workspace_path == workspace_path@,
            handshake@.mode == mode,
            handshake@.stage == first_stage(seed.deep_view(), workspace_path@),
            !(handshake@.stage is Over),
    {
        let stage = match seed {
            SessionSeed::Fresh => Stage::Creating,
            SessionSeed::Predecessor(session_id) => Stage::Resuming(session_id.clone()),
            SessionSeed::Recorded(record) => if str_eq(
                record.workspace_path.as_str(),
                workspace_path,
            ) {
                Stage::Listing(record.zcode_session_id.clone())
            } else {
                Stage::Creating
            },
        };
        Handshake { workspace_path: workspace_path.to_owned(), mode, stage }
    }

    /// The request whose answer the handshake waits for.
    pub fn request(&self) -> (step: HandshakeStep)
        requires
            !(self@.stage is Over),
        ensures
            asks(step, self@),
    {
        match &self.stage {
            Stage::Listing(session_id) => {
                let mut ids: Vec<Json> = Vec::new();
                ids.push(Json::text(session_id.as_str()));
                proof {
                    reveal_with_fuel(json::models, 2);
                    assert(ids@.drop_last() =~= Seq::<Json>::empty());
                    assert(json::models(ids@) =~= seq![JsonModel::Str(session_id@)]);
                }
                HandshakeStep::Request {
                    method: "session/list",
                    params: Json::object().with("sessionIds", Json::Array(ids)).with(
                        "workspace",
                        workspace_value(self.workspace_path.as_str()),
                    ),
                }
            },
            Stage::Resuming(session_id) => HandshakeStep::Request {
                method: "session/resume",
                params: Json::object().with("sessionId", Json::text(session_id.as_str())).with(
                    "workspace",
                    workspace_value(self.workspace_path.as_str()),
                ),
            },
            Stage::ResumeSubscribing(session_id) => HandshakeStep::Request {
                method: "session/subscribe",
                params: subscribe_params(session_id.as_str()),
            },
            Stage::CreateSubscribing(session_id) => HandshakeStep::Request {
                method: "session/subscribe",
                params: subscribe_params(session_id.as_str()),
            },
            _ => HandshakeStep::Request {
                method: "session/create",
                params: Json::object().with(
                    "workspace",
                    workspace_value(self.workspace_path.as_str()),
                ).with("mode", Json::text(self.mode.wire_session_mode())).with(
                    "titleGenerationEnabled",
                    Json::Bool(false),
                ),
            },
        }
    }

    /// Takes in the answer to the last request and says what follows.
    pub fn step(&mut self, answer: Result<Json, String>) -> (step: HandshakeStep)
        requires
            !(old(self)@.stage is Over),
        ensures
            final(self)@ == (HandshakeModel {
                stage: stage_after(old(self)@.stage, json::read_model(answer)),
                ..old(self)@
            }),
            if final(self)@.stage is Over {
                step matches HandshakeStep::Done { result, event_seq } && {
                    &&& (match result {
                        Ok(session_id) => Ok::<Seq<char>, Seq<char>>(session_id@),
                        Err(message) => Err(message@),
                    }) == handshake_result(old(self)@.stage, json::read_model(answer))
                    &&& event_seq == subscribed_seq(old(self)@.stage, json::read_model(answer))
                }
            } else {
                asks(step, final(self)@)
            },
    {
        let mut stage = Stage::Over;
        std::mem::swap(&mut stage, &mut self.stage);
        match stage {
            Stage::Listing(session_id) => {
                let confirmed = match &answer {
                    Ok(answer) => confirms_session(answer, session_id.as_str()),
                    Err(_) => false,
                };
                self.stage = if confirmed {
                    Stage::Resuming(session_id)
                } else {
                    Stage::Creating
                };
                self.request()
            },
            Stage::Resuming(session_id) => {
                self.stage = match &answer {
                    Ok(_) => Stage::ResumeSubscribing(session_id),
                    Err(_) => Stage::Creating,
                };
                self.request()
            },
            Stage::ResumeSubscribing(session_id) => match answer {
                Ok(answer) => HandshakeStep::Done {
                    result: Ok(session_id),
                    event_seq: stream_head(&answer),
                },
                Err(_) => {
                    self.stage = Stage::Creating;
                    self.request()
                },
            },
            Stage::CreateSubscribing(session_id) => match answer {
                Ok(answer) => HandshakeStep::Done {
                    result: Ok(session_id),
                    event_seq: stream_head(&answer),
                },
                Err(message) => HandshakeStep::Done { result: Err(message), event_seq: None },
            },
            _ => match answer {
                Ok(created) => match text_at(created.get("session"), "sessionId") {
                    Some(session_id) => {
                        self.stage = Stage::CreateSubscribing(session_id.to_owned());
                        self.request()
                    },
                    None => HandshakeStep::Done {
                        result: Err(
                            "session/create response carried no sessionId: ".to_owned().concat(
                                created.render().as_str(),
                            ),
                        ),
                        event_seq: None,
                    },
                },
                Err(message) => HandshakeStep::Done { result: Err(message), event_seq: None },
            },
        }
    }
}

/// How many answers a handshake waits for at most.
pub open spec fn answers_left(stage: StageModel) -> nat {
    match stage {
        StageModel::Listing(_) => 5,
        StageModel::Resuming(_) => 4,
        StageModel::ResumeSubscribing(_) => 3,
        StageModel::Creating => 2,
        StageModel::CreateSubscribing(_) => 1,
        StageModel::Over => 0,
    }
}

/// A handshake ends: each answer brings it closer to its end, whatever the
/// answer is.
pub proof fn law_handshake_ends(stage: StageModel, answer: Result<JsonModel, Seq<char>>)
    requires
        !(stage is Over),
    ensures
        answers_left(stage_after(stage, answer)) < answers_left(stage),
{
}

/// A failure while a session is being picked up never fails the handshake: it
/// leads to the creation of a fresh session.
pub proof fn law_failed_pick_up_creates(stage: StageModel, message: Seq<char>)
    requires
        stage is Listing || stage is Resuming || stage is ResumeSubscribing,
    ensures
        stage_after(stage, Err(message)) is Creating,
{
}

/// A recorded session is resumed only when the server's answer to the look-up
/// names it; otherwise a fresh session is created.
pub proof fn law_record_is_confirmed_first(session_id: Seq<char>, answer: JsonModel)
    ensures
        confirms(answer, session_id) ==> stage_after(StageModel::Listing(session_id), Ok(answer))
            == StageModel::Resuming(session_id),
        !confirms(answer, session_id) ==> stage_after(
            StageModel::Listing(session_id),
            Ok(answer),
        ) is Creating,
{
}

/// A record of another workspace is rejected without asking the server.
pub proof fn law_foreign_record_creates(record: RecordModel, workspace_path: Seq<char>)
    requires
        record.workspace_path != workspace_path,
    ensures
        first_stage(SeedModel::Recorded(record), workspace_path) is Creating,
{
}

/// The session of a stage, where it has one.
pub open spec fn stage_session(stage: StageModel) -> Option<Seq<char>> {
    match stage {
        StageModel::Listing(session_id) => Some(session_id),
        StageModel::Resuming(session_id) => Some(session_id),
        StageModel::ResumeSubscribing(session_id) => Some(session_id),
        StageModel::Creating => None,
        StageModel::CreateSubscribing(session_id) => Some(session_id),
        StageModel::Over => None,
    }
}

/// A session keeps its id on its way through a handshake: the next stage is
/// about the same session, or about none, or about one that was just created.
pub proof fn law_session_id_is_kept(stage: StageModel, answer: Result<JsonModel, Seq<char>>)
    ensures
        ({
            let next = stage_after(stage, answer);
            ||| stage_session(next) is None
            ||| stage_session(next) == stage_session(stage)
            ||| stage is Creating && answer is Ok && stage_session(next) == created_session(answer->Ok_0)
        }),
{
}

/// The type of an event; one without type is of type `unknown`.
pub open spec fn event_type(event: JsonModel) -> Seq<char> {
    match event.str_at("type"@) {
        Some(name) => name,
        None => "unknown"@,
    }
}

/// Whether `a` comes before `b` in the order of code points.
pub open spec fn comes_before(a: Seq<char>, b: Seq<char>) -> bool
    decreases a.len(),
{
    if b.len() == 0 {
        false
    } else if a.len() == 0 {
        true
    } else if a[0] != b[0] {
        a[0] < b[0]
    } else {
        comes_before(a.subrange(1, a.len() as int), b.subrange(1, b.len() as int))
    }
}

/// A tally with `name` counted once more. Names stand in order.
pub open spec fn counted(tally: Seq<(Seq<char>, nat)>, name: Seq<char>) -> Seq<(Seq<char>, nat)>
    decreases tally.len(),
{
    if tally.len() == 0 {
        seq![(name, 1nat)]
    } else if tally[0].0 == name {
        tally.update(0, (name, tally[0].1 + 1))
    } else if comes_before(name, tally[0].0) {
        seq![(name, 1nat)] + tally
    } else {
        seq![tally[0]] + counted(tally.subrange(1, tally.len() as int), name)
    }
}

/// How many events there are of each type, in the order of the types.
pub open spec fn tally_of(events: Seq<JsonModel>) -> Seq<(Seq<char>, nat)>
    decreases events.len(),
{
    if events.len() == 0 {
        Seq::empty()
    } else {
        counted(tally_of(events.drop_last()), event_type(events.last()))
    }
}

/// One entry of a tally, as it is shown.
pub open spec fn entry_text(entry: (Seq<char>, nat)) -> Seq<char> {
    entry.0 + "\u{d7}"@ + text::decimal_text(entry.1)
}

/// The entries of a tally, as they are shown.
pub open spec fn entry_texts(tally: Seq<(Seq<char>, nat)>) -> Seq<Seq<char>> {
    Seq::new(tally.len(), |i: int| entry_text(tally[i]))
}

/// The last event that ended a turn, as it is shown.
pub open spec fn terminal_text(events: Seq<JsonModel>) -> Seq<char>
    decreases events.len(),
{
    if events.len() == 0 {
        "none"@
    } else if event_type(events.last()) == "turn.completed"@ || event_type(events.last())
        == "turn.failed"@ {
        event_type(events.last()) + "("@ + (match json::str_in(
            events.last().get("payload"@),
            "resultType"@,
        ) {
            Some(result_type) => result_type,
            None => "unknown"@,
        }) + ")"@
    } else {
        terminal_text(events.drop_last())
    }
}

/// The line that says what happened while nobody was watching.
pub open spec fn gap_summary(
    session_id: Seq<char>,
    after_seq: u64,
    events: Seq<JsonModel>,
) -> Seq<char> {
    "ZCode warm session "@ + session_id + ": "@ + text::decimal_text(events.len())
        + " event(s) while disconnected (after seq "@ + text::decimal_text(after_seq as nat)
        + "): "@ + text::joined(entry_texts(tally_of(events)), ", "@) + "; latest terminal turn: "@
        + terminal_text(events)
}

fn is_before(a: &str, b: &str) -> (before: bool)
    ensures
        before == comes_before(a@, b@),
{
    let left = text::chars_of(a);
    let right = text::chars_of(b);
    let mut i: usize = 0;
    proof {
        assert(a@.subrange(0, a@.len() as int) =~= a@);
        assert(b@.subrange(0, b@.len() as int) =~= b@);
    }
    loop
        invariant
            left@ == a@,
            right@ == b@,
            i <= left@.len(),
            i <= right@.len(),
            comes_before(a@, b@) == comes_before(
                a@.subrange(i as int, a@.len() as int),
                b@.subrange(i as int, b@.len() as int),
            ),
        decreases left@.len() - i,
    {
        if i == right.len() {
            return false;
        }
        if i == left.len() {
            return true;
        }
        if left[i] != right[i] {
            return left[i] < right[i];
        }
        proof {
            let rest_a = a@.subrange(i as int, a@.len() as int);
            let rest_b = b@.subrange(i as int, b@.len() as int);
            assert(rest_a.subrange(1, rest_a.len() as int) =~= a@.subrange(
                i + 1,
                a@.len() as int,
            ));
            assert(rest_b.subrange(1, rest_b.len() as int) =~= b@.subrange(
                i + 1,
                b@.len() as int,
            ));
        }
        i = i + 1;
    }
}

spec fn tally_model(tally: Seq<(String, u64)>) -> Seq<(Seq<char>, nat)> {
    Seq::new(tally.len(), |i: int| (tally[i].0@, tally[i].1 as nat))
}

/// The place of a name in a tally: everything before it stays as it is.
proof fn lemma_counted_at(tally: Seq<(Seq<char>, nat)>, name: Seq<char>, at: int)
    requires
        0 <= at <= tally.len(),
        forall|j: int|
            0 <= j < at ==> (#[trigger] tally[j]).0 != name && !comes_before(name, tally[j].0),
    ensures
        counted(tally, name) == tally.take(at) + counted(
            tally.subrange(at, tally.len() as int),
            name,
        ),
    decreases at,
{
    if at == 0 {
        assert(tally.subrange(0, tally.len() as int) =~= tally);
        assert(tally.take(0) + counted(tally, name) =~= counted(tally, name));
    } else {
        let rest = tally.subrange(1, tally.len() as int);
        assert(tally[0].0 != name);
        assert forall|j: int| 0 <= j < at - 1 implies (#[trigger] rest[j]).0 != name
            && !comes_before(name, rest[j].0) by {
            assert(rest[j] == tally[j + 1]);
        }
        lemma_counted_at(rest, name, at - 1);
        assert(rest.subrange(at - 1, rest.len() as int) =~= tally.subrange(
            at,
            tally.len() as int,
        ));
        assert(seq![tally[0]] + rest.take(at - 1) =~= tally.take(at));
        let tail = counted(tally.subrange(at, tally.len() as int), name);
        assert(seq![tally[0]] + (rest.take(at - 1) + tail) =~= tally.take(at) + tail);
    }
}

fn count_one(tally: &mut Vec<(String, u64)>, name: &str, most: u64)
    requires
        most < u64::MAX,
        forall|i: int| 0 <= i < old(tally)@.len() ==> (#[trigger] old(tally)@[i]).1 <= most,
    ensures
        tally_model(final(tally)@) == counted(tally_model(old(tally)@), name@),
        forall|i: int| 0 <= i < final(tally)@.len() ==> (#[trigger] final(tally)@[i]).1 <= most + 1,
{
    let ghost before = tally_model(tally@);
    let mut at: usize = 0;
    while at < tally.len()
        invariant
            *tally == *old(tally),
            before == tally_model(tally@),
            at <= tally@.len(),
            most < u64::MAX,
            forall|i: int| 0 <= i < tally@.len() ==> (#[trigger] tally@[i]).1 <= most,
            forall|j: int|
                0 <= j < at ==> (#[trigger] before[j]).0 != name@ && !comes_before(
                    name@,
                    before[j].0,
                ),
        decreases tally@.len() - at,
    {
        let ghost rest = before.subrange(at as int, before.len() as int);
        assert(rest[0] == before[at as int]);
        if str_eq(tally[at].0.as_str(), name) {
            let count: u64 = tally[at].1 + 1;
            proof {
                lemma_counted_at(before, name@, at as int);
                assert(before.take(at as int) + rest.update(0, (name@, count as nat))
                    =~= before.update(at as int, (name@, count as nat)));
            }
            tally[at] = (name.to_owned(), count);
            assert(tally_model(tally@) =~= before.update(at as int, (name@, count as nat)));
            return ;
        }
        if is_before(name, tally[at].0.as_str()) {
            proof {
                lemma_counted_at(before, name@, at as int);
                assert(before.take(at as int) + (seq![(name@, 1nat)] + rest) =~= before.insert(
                    at as int,
                    (name@, 1nat),
                ));
            }
            tally.insert(at, (name.to_owned(), 1));
            assert(tally_model(tally@) =~= before.insert(at as int, (name@, 1nat)));
            return ;
        }
        at = at + 1;
    }
    proof {
        lemma_counted_at(before, name@, at as int);
        assert(before.subrange(at as int, before.len() as int) =~= Seq::empty());
        assert(before.take(at as int) + seq![(name@, 1nat)] =~= before.push((name@, 1nat)));
    }
    tally.push((name.to_owned(), 1));
    assert(tally_model(tally@) =~= before.push((name@, 1nat)));
}

fn name_of_type(event: &Json) -> (name: &str)
    ensures
        name@ == event_type(event@),
{
    match event.str_at("type") {
        Some(name) => name,
        None => "unknown",
    }
}

fn latest_terminal(events: &[Json]) -> (shown: String)
    ensures
        shown@ == terminal_text(events.deep_view()),
{
    let ghost all = events.deep_view();
    let mut len: usize = events.len();
    assert(all.take(all.len() as int) =~= all);
    while len > 0
        invariant
            len <= events@.len(),
            all == events.deep_view(),
            terminal_text(all) == terminal_text(all.take(len as int)),
        decreases len,
    {
        assert(all.take(len as int).drop_last() =~= all.take(len - 1));
        assert(all.take(len as int).last() == events@[len - 1]@);
        let event = &events[len - 1];
        let name = name_of_type(event);
        if str_eq(name, "turn.completed") || str_eq(name, "turn.failed") {
            let result_type = match text_at(event.get("payload"), "resultType") {
                Some(result_type) => result_type,
                None => "unknown",
            };
            return name.to_owned().concat("(").concat(result_type).concat(")");
        }
        len = len - 1;
    }
    "none".to_owned()
}

/// The line that an operator has to reconstruct what the core did while no
/// bridge was watching, or `None` when nothing happened.
pub fn missed_events_summary(session_id: &str, after_seq: u64, events: &[Json]) -> (summary: Option<
    String,
>)
    ensures
        summary.deep_view() == (if events.deep_view().len() == 0 {
            None
        } else {
            Some(gap_summary(session_id@, after_seq, events.deep_view()))
        }),
{
    let total: usize = events.len();
    if total == 0 {
        return None;
    }
    let ghost all = events.deep_view();
    let mut tally: Vec<(String, u64)> = Vec::new();
    let mut i: usize = 0;
    assert(tally_model(tally@) =~= tally_of(all.take(0)));
    while i < total
        invariant
            total == events@.len(),
            i <= total,
            all == events.deep_view(),
            tally_model(tally@) == tally_of(all.take(i as int)),
            forall|j: int| 0 <= j < tally@.len() ==> (#[trigger] tally@[j]).1 <= i,
        decreases total - i,
    {
        assert(all.take(i + 1).drop_last() =~= all.take(i as int));
        assert(all.take(i + 1).last() == events@[i as int]@);
        count_one(&mut tally, name_of_type(&events[i]), i as u64);
        i = i + 1;
    }
    assert(all.take(all.len() as int) =~= all);
    let mut shown: Vec<String> = Vec::new();
    let mut k: usize = 0;
    while k < tally.len()
        invariant
            k <= tally@.len(),
            shown@.len() == k,
            forall|j: int|
                0 <= j < k ==> (#[trigger] shown@[j])@ == entry_text(tally_model(tally@)[j]),
        decreases tally@.len() - k,
    {
        shown.push(
            tally[k].0.clone().concat("\u{d7}").concat(text::decimal(tally[k].1).as_str()),
        );
        k = k + 1;
    }
    assert(shown.deep_view() =~= entry_texts(tally_of(all)));
    Some(
        "ZCode warm session ".to_owned().concat(session_id).concat(": ").concat(
            text::decimal(total as u64).as_str(),
        ).concat(" event(s) while disconnected (after seq ").concat(
            text::decimal(after_seq).as_str(),
        ).concat("): ").concat(text::join(&shown, ", ").as_str()).concat(
            "; latest terminal turn: ",
        ).concat(latest_terminal(events).as_str()),
    )
}

/// How many events are of a type.
pub open spec fn occurrences(events: Seq<JsonModel>, name: Seq<char>) -> nat
    decreases events.len(),
{
    if events.len() == 0 {
        0
    } else {
        occurrences(events.drop_last(), name) + (if event_type(events.last()) == name {
            1nat
        } else {
            0nat
        })
    }
}

/// What a tally has for a name.
pub open spec fn tallied(tally: Seq<(Seq<char>, nat)>, name: Seq<char>) -> nat
    decreases tally.len(),
{
    if tally.len() == 0 {
        0
    } else if tally[0].0 == name {
        tally[0].1
    } else {
        tallied(tally.subrange(1, tally.len() as int), name)
    }
}

/// Whether the names of a tally stand in strictly ascending order.
pub open spec fn in_order(tally: Seq<(Seq<char>, nat)>) -> bool {
    forall|i: int, j: int|
        0 <= i < j < tally.len() ==> comes_before(
            (#[trigger] tally[i]).0,
            (#[trigger] tally[j]).0,
        )
}

proof fn lemma_order_is_total(a: Seq<char>, b: Seq<char>)
    requires
        a != b,
    ensures
        comes_before(a, b) || comes_before(b, a),
    decreases a.len(),
{
    if a.len() > 0 && b.len() > 0 && a[0] == b[0] {
        let rest_a = a.subrange(1, a.len() as int);
        let rest_b = b.subrange(1, b.len() as int);
        if rest_a == rest_b {
            assert(a =~= seq![a[0]] + rest_a);
            assert(b =~= seq![b[0]] + rest_b);
        }
        lemma_order_is_total(rest_a, rest_b);
    } else if a.len() == 0 && b.len() == 0 {
        assert(a =~= b);
    }
}

proof fn lemma_order_is_transitive(a: Seq<char>, b: Seq<char>, c: Seq<char>)
    requires
        comes_before(a, b),
        comes_before(b, c),
    ensures
        comes_before(a, c),
    decreases a.len(),
{
    if a.len() > 0 && b.len() > 0 && c.len() > 0 && a[0] == b[0] && b[0] == c[0] {
        lemma_order_is_transitive(
            a.subrange(1, a.len() as int),
            b.subrange(1, b.len() as int),
            c.subrange(1, c.len() as int),
        );
    }
}

proof fn lemma_counted_members(tally: Seq<(Seq<char>, nat)>, name: Seq<char>, i: int)
    requires
        0 <= i < counted(tally, name).len(),
    ensures
        counted(tally, name)[i].0 == name || exists|j: int|
            0 <= j < tally.len() && (#[trigger] tally[j]).0 == counted(tally, name)[i].0,
    decreases tally.len(),
{
    if tally.len() == 0 {
    } else if tally[0].0 == name {
        assert(tally[i].0 == counted(tally, name)[i].0 || i == 0);
    } else if comes_before(name, tally[0].0) {
        if i > 0 {
            assert(tally[i - 1].0 == counted(tally, name)[i].0);
        }
    } else if i == 0 {
        assert(tally[0].0 == counted(tally, name)[0].0);
    } else {
        let rest = tally.subrange(1, tally.len() as int);
        lemma_counted_members(rest, name, i - 1);
        let member = counted(rest, name)[i - 1].0;
        assert(counted(tally, name)[i].0 == member);
        if member != name {
            let j = choose|j: int| 0 <= j < rest.len() && (#[trigger] rest[j]).0 == member;
            assert(tally[j + 1].0 == member);
        }
    }
}

proof fn lemma_counted_keeps_order(tally: Seq<(Seq<char>, nat)>, name: Seq<char>)
    requires
        in_order(tally),
    ensures
        in_order(counted(tally, name)),
    decreases tally.len(),
{
    let after = counted(tally, name);
    if tally.len() == 0 {
    } else if tally[0].0 == name {
        assert forall|i: int, j: int| 0 <= i < j < after.len() implies comes_before(
            (#[trigger] after[i]).0,
            (#[trigger] after[j]).0,
        ) by {
            assert(comes_before(tally[i].0, tally[j].0));
        }
    } else if comes_before(name, tally[0].0) {
        assert forall|i: int, j: int| 0 <= i < j < after.len() implies comes_before(
            (#[trigger] after[i]).0,
            (#[trigger] after[j]).0,
        ) by {
            if i == 0 {
                if j > 1 {
                    assert(comes_before(tally[0].0, tally[j - 1].0));
                    lemma_order_is_transitive(name, tally[0].0, tally[j - 1].0);
                }
            } else {
                assert(comes_before(tally[i - 1].0, tally[j - 1].0));
            }
        }
    } else {
        let rest = tally.subrange(1, tally.len() as int);
        assert(in_order(rest)) by {
            assert forall|i: int, j: int| 0 <= i < j < rest.len() implies comes_before(
                (#[trigger] rest[i]).0,
                (#[trigger] rest[j]).0,
            ) by {
                assert(comes_before(tally[i + 1].0, tally[j + 1].0));
            }
        }
        lemma_counted_keeps_order(rest, name);
        lemma_order_is_total(name, tally[0].0);
        let tail = counted(rest, name);
        assert forall|i: int, j: int| 0 <= i < j < after.len() implies comes_before(
            (#[trigger] after[i]).0,
            (#[trigger] after[j]).0,
        ) by {
            assert(after[j] == tail[j - 1]);
            if i == 0 {
                lemma_counted_members(rest, name, j - 1);
                if tail[j - 1].0 != name {
                    let k = choose|k: int|
                        0 <= k < rest.len() && (#[trigger] rest[k]).0 == tail[j - 1].0;
                    assert(comes_before(tally[0].0, tally[k + 1].0));
                }
            } else {
                assert(after[i] == tail[i - 1]);
            }
        }
    }
}

proof fn lemma_not_before_itself(a: Seq<char>)
    ensures
        !comes_before(a, a),
    decreases a.len(),
{
    if a.len() > 0 {
        lemma_not_before_itself(a.subrange(1, a.len() as int));
    }
}

proof fn lemma_absent_before_the_first(tally: Seq<(Seq<char>, nat)>, name: Seq<char>)
    requires
        in_order(tally),
        tally.len() == 0 || comes_before(name, tally[0].0),
    ensures
        tallied(tally, name) == 0,
    decreases tally.len(),
{
    if tally.len() > 0 {
        lemma_not_before_itself(name);
        let rest = tally.subrange(1, tally.len() as int);
        assert(in_order(rest)) by {
            assert forall|i: int, j: int| 0 <= i < j < rest.len() implies comes_before(
                (#[trigger] rest[i]).0,
                (#[trigger] rest[j]).0,
            ) by {
                assert(comes_before(tally[i + 1].0, tally[j + 1].0));
            }
        }
        if rest.len() > 0 {
            assert(comes_before(tally[0].0, tally[1].0));
            lemma_order_is_transitive(name, tally[0].0, tally[1].0);
        }
        lemma_absent_before_the_first(rest, name);
    }
}

proof fn lemma_counted_counts(tally: Seq<(Seq<char>, nat)>, name: Seq<char>, other: Seq<char>)
    requires
        in_order(tally),
    ensures
        tallied(counted(tally, name), other) == tallied(tally, other) + (if other == name {
            1nat
        } else {
            0nat
        }),
    decreases tally.len(),
{
    reveal_with_fuel(tallied, 2);
    let after = counted(tally, name);
    if tally.len() == 0 {
        assert(after.subrange(1, 1) =~= Seq::empty());
    } else if tally[0].0 == name {
        assert(after.subrange(1, after.len() as int) =~= tally.subrange(1, tally.len() as int));
    } else if comes_before(name, tally[0].0) {
        assert(after.subrange(1, after.len() as int) =~= tally);
        lemma_absent_before_the_first(tally, name);
    } else {
        let rest = tally.subrange(1, tally.len() as int);
        assert(in_order(rest)) by {
            assert forall|i: int, j: int| 0 <= i < j < rest.len() implies comes_before(
                (#[trigger] rest[i]).0,
                (#[trigger] rest[j]).0,
            ) by {
                assert(comes_before(tally[i + 1].0, tally[j + 1].0));
            }
        }
        lemma_counted_counts(rest, name, other);
        assert(after.subrange(1, after.len() as int) =~= counted(rest, name));
    }
}

/// A tally lists each type once, in ascending order, with the number of events
/// of that type.
pub proof fn law_tally_is_exact(events: Seq<JsonModel>, name: Seq<char>)
    ensures
        in_order(tally_of(events)),
        tallied(tally_of(events), name) == occurrences(events, name),
    decreases events.len(),
{
    if events.len() > 0 {
        law_tally_is_exact(events.drop_last(), name);
        lemma_counted_keeps_order(tally_of(events.drop_last()), event_type(events.last()));
        lemma_counted_counts(tally_of(events.drop_last()), event_type(events.last()), name);
    }
}

/// A look-up asks for its session, a resumption resumes it, both in the
/// workspace; a subscription subscribes to its live events; a creation asks for
/// a session in the workspace and the mode, without a generated title. Nothing
/// else is asked for.
pub proof fn law_each_stage_asks_for_its_session(
    session_id: Seq<char>,
    workspace_path: Seq<char>,
    mode: WarmMode,
    key: Seq<char>,
    inner: JsonModel,
)
    ensures
        json::has_member(workspace_model(workspace_path), key, inner) <==> {
            ||| key == "workspacePath"@ && inner == JsonModel::Str(workspace_path)
            ||| key == "workspaceKey"@ && inner == JsonModel::Str(workspace_path)
        },
        json::has_member(
            stage_params(StageModel::Listing(session_id), workspace_path, mode),
            key,
            inner,
        ) <==> {
            ||| key == "sessionIds"@ && inner == JsonModel::Array(seq![JsonModel::Str(session_id)])
            ||| key == "workspace"@ && inner == workspace_model(workspace_path)
        },
        json::has_member(
            stage_params(StageModel::Resuming(session_id), workspace_path, mode),
            key,
            inner,
        ) <==> {
            ||| key == "sessionId"@ && inner == JsonModel::Str(session_id)
            ||| key == "workspace"@ && inner == workspace_model(workspace_path)
        },
        json::has_member(stage_params(StageModel::Creating, workspace_path, mode), key, inner)
            <==> {
            ||| key == "workspace"@ && inner == workspace_model(workspace_path)
            ||| key == "mode"@ && inner == JsonModel::Str(zcode_warm::mode_name(mode))
            ||| key == "titleGenerationEnabled"@ && inner == JsonModel::Bool(false)
        },
{
    reveal_strlit("workspacePath");
    reveal_strlit("workspaceKey");
    reveal_strlit("sessionIds");
    reveal_strlit("sessionId");
    reveal_strlit("workspace");
    reveal_strlit("mode");
    reveal_strlit("titleGenerationEnabled");
    assert("workspacePath"@.len() == 13 && "workspaceKey"@.len() == 12);
    assert("sessionIds"@.len() == 10 && "workspace"@.len() == 9);
    assert("sessionId"@[0] != "workspace"@[0]);
    assert("mode"@.len() == 4 && "titleGenerationEnabled"@.len() == 22);
}

/// A resumed and a created session are subscribed to alike, and each request
/// goes out under its own method.
pub proof fn law_each_stage_has_its_method(
    session_id: Seq<char>,
    workspace_path: Seq<char>,
    mode: WarmMode,
    key: Seq<char>,
    inner: JsonModel,
)
    ensures
        json::has_member(
            stage_params(StageModel::ResumeSubscribing(session_id), workspace_path, mode),
            key,
            inner,
        ) <==> {
            ||| key == "sessionId"@ && inner == JsonModel::Str(session_id)
            ||| key == "deliveryKind"@ && inner == JsonModel::Str("desktop-continuous"@)
        },
        stage_params(StageModel::CreateSubscribing(session_id), workspace_path, mode)
            == stage_params(StageModel::ResumeSubscribing(session_id), workspace_path, mode),
        stage_method(StageModel::Listing(session_id)) == "session/list"@,
        stage_method(StageModel::Resuming(session_id)) == "session/resume"@,
        stage_method(StageModel::ResumeSubscribing(session_id)) == "session/subscribe"@,
        stage_method(StageModel::Creating) == "session/create"@,
        stage_method(StageModel::CreateSubscribing(session_id)) == "session/subscribe"@,
{
    reveal_strlit("sessionId");
    reveal_strlit("deliveryKind");
    assert("sessionId"@.len() == 9 && "deliveryKind"@.len() == 12);
}

/// An answer confirms a session exactly when one of the sessions it lists has
/// that id, wherever it stands.
pub proof fn law_a_listed_session_is_confirmed(
    answer: JsonModel,
    before: Seq<JsonModel>,
    listed: JsonModel,
    after: Seq<JsonModel>,
    sessions: Seq<JsonModel>,
    session_id: Seq<char>,
)
    ensures
        json::has_member(answer, "sessions"@, JsonModel::Array(before.push(listed) + after))
            && json::has_member(listed, "sessionId"@, JsonModel::Str(session_id)) ==> confirms(
            answer,
            session_id,
        ),
        json::has_member(answer, "sessions"@, JsonModel::Array(sessions)) && confirms(
            answer,
            session_id,
        ) ==> exists|i: int|
            0 <= i < sessions.len() && json::has_member(
                #[trigger] sessions[i],
                "sessionId"@,
                JsonModel::Str(session_id),
            ),
        !(answer.get("sessions"@) is Some && answer.get("sessions"@)->0 is Array) ==> !confirms(
            answer,
            session_id,
        ),
{
    let all = before.push(listed) + after;
    assert(all[before.len() as int] == listed);
}

/// A handshake starts by resuming its predecessor's session, by looking up the
/// recorded one of the same workspace, or by creating one.
pub proof fn law_a_seed_decides_how_to_start(
    session_id: Seq<char>,
    record: RecordModel,
    workspace_path: Seq<char>,
)
    ensures
        first_stage(SeedModel::Fresh, workspace_path) is Creating,
        first_stage(SeedModel::Predecessor(session_id), workspace_path) == StageModel::Resuming(
            session_id,
        ),
        record.workspace_path == workspace_path ==> first_stage(
            SeedModel::Recorded(record),
            workspace_path,
        ) == StageModel::Listing(record.zcode_session_id),
{
}

/// A session that is resumed is subscribed to, and so is one that is created,
/// under the id it was created with; then the handshake is over.
pub proof fn law_a_session_is_subscribed_to(
    session_id: Seq<char>,
    answer: JsonModel,
    session: JsonModel,
    message: Seq<char>,
)
    ensures
        stage_after(StageModel::Resuming(session_id), Ok(answer)) == StageModel::ResumeSubscribing(
            session_id,
        ),
        json::has_member(answer, "session"@, session) && json::has_member(
            session,
            "sessionId"@,
            JsonModel::Str(session_id),
        ) ==> stage_after(StageModel::Creating, Ok(answer)) == StageModel::CreateSubscribing(
            session_id,
        ),
        json::str_in(answer.get("session"@), "sessionId"@) is None ==> stage_after(
            StageModel::Creating,
            Ok(answer),
        ) is Over,
        stage_after(StageModel::Creating, Err(message)) is Over,
        stage_after(StageModel::ResumeSubscribing(session_id), Ok(answer)) is Over,
        stage_after(StageModel::CreateSubscribing(session_id), Ok(answer)) is Over,
        stage_after(StageModel::CreateSubscribing(session_id), Err(message)) is Over,
{
}

/// A handshake ends with the session that was subscribed to, or with what the
/// core answered instead; a creation that names no session is quoted.
pub proof fn law_a_handshake_ends_with_its_session(
    session_id: Seq<char>,
    answer: JsonModel,
    message: Seq<char>,
    stage: StageModel,
)
    ensures
        handshake_result(StageModel::ResumeSubscribing(session_id), Ok(answer)) == Ok::<
            Seq<char>,
            Seq<char>,
        >(session_id),
        handshake_result(StageModel::CreateSubscribing(session_id), Ok(answer)) == Ok::<
            Seq<char>,
            Seq<char>,
        >(session_id),
        handshake_result(stage, Err(message)) == Err::<Seq<char>, Seq<char>>(message),
        handshake_result(StageModel::Creating, Ok(answer)) == Err::<Seq<char>, Seq<char>>(
            "session/create response carried no sessionId: "@ + json::json_text(answer),
        ),
{
}

/// The head of the event stream is the whole number that the answer to a
/// subscription carries; no other answer carries one.
pub proof fn law_a_subscription_pins_the_stream_head(
    session_id: Seq<char>,
    answer: JsonModel,
    head: u64,
    stage: StageModel,
    message: Seq<char>,
)
    ensures
        subscribed_seq(StageModel::ResumeSubscribing(session_id), Ok(answer)) == Some(head)
            <==> json::has_member(answer, "eventSeq"@, JsonModel::Int(head as int)),
        subscribed_seq(StageModel::CreateSubscribing(session_id), Ok(answer)) == Some(head)
            <==> json::has_member(answer, "eventSeq"@, JsonModel::Int(head as int)),
        subscribed_seq(stage, Err(message)) is None,
        !(stage is ResumeSubscribing) && !(stage is CreateSubscribing) ==> subscribed_seq(
            stage,
            Ok(answer),
        ) is None,
{
}

/// Texts are ordered by the first character in which they differ, and a text
/// comes before what it is the start of.
pub proof fn law_texts_are_ordered_by_their_characters(
    start: Seq<char>,
    a: Seq<char>,
    b: Seq<char>,
)
    requires
        a.len() > 0 && b.len() > 0 ==> a[0] != b[0],
    ensures
        comes_before(start + a, start + b) <==> b.len() > 0 && (a.len() == 0 || a[0]
            < b[0]),
    decreases start.len(),
{
    if start.len() == 0 {
        assert(start + a =~= a);
        assert(start + b =~= b);
    } else {
        let rest = start.subrange(1, start.len() as int);
        law_texts_are_ordered_by_their_characters(rest, a, b);
        assert((start + a).subrange(1, (start + a).len() as int) =~= rest + a);
        assert((start + b).subrange(1, (start + b).len() as int) =~= rest + b);
        assert((start + a)[0] == start[0]);
        assert((start + b)[0] == start[0]);
    }
}

/// A tally lists only types that occur, each with the number of its events, and
/// is shown entry by entry.
pub proof fn law_a_tally_lists_what_occurred(events: Seq<JsonModel>, i: int)
    requires
        0 <= i < tally_of(events).len(),
    ensures
        tally_of(events)[i].1 == occurrences(events, tally_of(events)[i].0),
        tally_of(events)[i].1 > 0,
        entry_texts(tally_of(events)).len() == tally_of(events).len(),
        entry_texts(tally_of(events))[i] == tally_of(events)[i].0.push('\u{d7}')
            + text::decimal_text(tally_of(events)[i].1),
{
    let tally = tally_of(events);
    law_tally_is_exact(events, tally[i].0);
    lemma_tallied_at(tally, i);
    lemma_tally_is_positive(events, i);
    reveal_strlit("\u{d7}");
    assert(entry_texts(tally)[i] =~= tally[i].0.push('\u{d7}') + text::decimal_text(tally[i].1));
}

proof fn lemma_tallied_at(tally: Seq<(Seq<char>, nat)>, i: int)
    requires
        in_order(tally),
        0 <= i < tally.len(),
    ensures
        tallied(tally, tally[i].0) == tally[i].1,
    decreases tally.len(),
{
    if i > 0 {
        assert(comes_before(tally[0].0, tally[i].0));
        lemma_not_before_itself(tally[i].0);
        let rest = tally.subrange(1, tally.len() as int);
        assert(in_order(rest)) by {
            assert forall|j: int, k: int| 0 <= j < k < rest.len() implies comes_before(
                (#[trigger] rest[j]).0,
                (#[trigger] rest[k]).0,
            ) by {
                assert(comes_before(tally[j + 1].0, tally[k + 1].0));
            }
        }
        assert(rest[i - 1] == tally[i]);
        lemma_tallied_at(rest, i - 1);
    }
}

proof fn lemma_counted_is_positive(tally: Seq<(Seq<char>, nat)>, name: Seq<char>)
    requires
        forall|i: int| 0 <= i < tally.len() ==> (#[trigger] tally[i]).1 > 0,
    ensures
        forall|i: int| 0 <= i < counted(tally, name).len() ==> (#[trigger] counted(tally, name)[i]).1
            > 0,
    decreases tally.len(),
{
    if tally.len() == 0 {
    } else if tally[0].0 == name {
    } else if comes_before(name, tally[0].0) {
        let after = counted(tally, name);
        assert forall|i: int| 0 <= i < after.len() implies (#[trigger] after[i]).1 > 0 by {
            if i > 0 {
                assert(after[i] == tally[i - 1]);
            }
        }
    } else {
        let rest = tally.subrange(1, tally.len() as int);
        assert forall|i: int| 0 <= i < rest.len() implies (#[trigger] rest[i]).1 > 0 by {
            assert(rest[i] == tally[i + 1]);
        }
        lemma_counted_is_positive(rest, name);
        let after = counted(tally, name);
        assert forall|i: int| 0 <= i < after.len() implies (#[trigger] after[i]).1 > 0 by {
            if i == 0 {
                assert(after[0] == tally[0]);
            } else {
                assert(after[i] == counted(rest, name)[i - 1]);
            }
        }
    }
}

proof fn lemma_tally_is_positive(events: Seq<JsonModel>, i: int)
    requires
        0 <= i < tally_of(events).len(),
    ensures
        tally_of(events)[i].1 > 0,
    decreases events.len(),
{
    if events.len() > 0 {
        let before = tally_of(events.drop_last());
        assert forall|j: int| 0 <= j < before.len() implies (#[trigger] before[j]).1 > 0 by {
            lemma_tally_is_positive(events.drop_last(), j);
        }
        lemma_counted_is_positive(before, event_type(events.last()));
    }
}

/// The last event that completed or failed a turn is shown, with its result
/// where it has one; what came before it and what came after it are not.
pub proof fn law_the_latest_end_of_a_turn_is_shown(
    earlier: Seq<JsonModel>,
    event: JsonModel,
    later: Seq<JsonModel>,
    result_type: Seq<char>,
)
    requires
        forall|i: int|
            0 <= i < later.len() ==> (#[trigger] later[i]).str_at("type"@) != Some(
                "turn.completed"@,
            ) && later[i].str_at("type"@) != Some("turn.failed"@),
        json::str_in(event.get("payload"@), "resultType"@) == Some(result_type) || (json::str_in(
            event.get("payload"@),
            "resultType"@,
        ) is None && result_type == "unknown"@),
    ensures
        event.str_at("type"@) == Some("turn.completed"@) ==> terminal_text(
            earlier.push(event) + later,
        ) == "turn.completed"@ + "("@ + result_type + ")"@,
        event.str_at("type"@) == Some("turn.failed"@) ==> terminal_text(earlier.push(event) + later)
            == "turn.failed"@ + "("@ + result_type + ")"@,
        terminal_text(later) == "none"@,
    decreases later.len(),
{
    reveal_strlit("unknown");
    reveal_strlit("turn.completed");
    reveal_strlit("turn.failed");
    assert("unknown"@.len() != "turn.completed"@.len());
    assert("unknown"@.len() != "turn.failed"@.len());
    let all = earlier.push(event) + later;
    if later.len() == 0 {
        assert(all.last() == event);
    } else {
        let rest = later.drop_last();
        assert(later[later.len() - 1] == all.last());
        assert forall|i: int| 0 <= i < rest.len() implies (#[trigger] rest[i]).str_at("type"@)
            != Some("turn.completed"@) && rest[i].str_at("type"@) != Some("turn.failed"@) by {
            assert(rest[i] == later[i]);
        }
        law_the_latest_end_of_a_turn_is_shown(earlier, event, rest, result_type);
        assert(all.drop_last() =~= earlier.push(event) + rest);
    }
}

/// The line on a gap names the session, how many events were missed and since
/// when, then the tally and the latest end of a turn. An event is of the type
/// it names, or of an unknown one.
pub proof fn law_a_gap_is_summed_up(
    session_id: Seq<char>,
    after_seq: u64,
    events: Seq<JsonModel>,
    event: JsonModel,
    name: Seq<char>,
)
    ensures
        gap_summary(session_id, after_seq, events) == "ZCode warm session "@ + session_id + ": "@
            + text::decimal_text(events.len()) + " event(s) while disconnected (after seq "@
            + text::decimal_text(after_seq as nat) + "): "@ + text::joined(
            entry_texts(tally_of(events)),
            ", "@,
        ) + "; latest terminal turn: "@ + terminal_text(events),
        event.str_at("type"@) == Some(name) ==> event_type(event) == name,
        event.str_at("type"@) is None ==> event_type(event) == "unknown"@,
{
}

/// Seeds and stages are modelled by all that they hold.
pub proof fn law_stages_are_modelled_by_what_they_hold(seed: SessionSeed, stage: Stage)
    ensures
        match seed {
            SessionSeed::Fresh => seed.deep_view() is Fresh,
            SessionSeed::Predecessor(session_id) => seed.deep_view() == SeedModel::Predecessor(
                session_id@,
            ),
            SessionSeed::Recorded(record) => seed.deep_view() == SeedModel::Recorded(
                record.deep_view(),
            ),
        },
        match stage {
            Stage::Listing(session_id) => stage.deep_view() == StageModel::Listing(session_id@),
            Stage::Resuming(session_id) => stage.deep_view() == StageModel::Resuming(session_id@),
            Stage::ResumeSubscribing(session_id) => stage.deep_view()
                == StageModel::ResumeSubscribing(session_id@),
            Stage::Creating => stage.deep_view() is Creating,
            Stage::CreateSubscribing(session_id) => stage.deep_view()
                == StageModel::CreateSubscribing(session_id@),
            Stage::Over => stage.deep_view() is Over,
        },
{
}

/// A gap is summed up exactly when something happened in it.
pub proof fn law_an_empty_gap_is_not_summed_up(
    session_id: &str,
    after_seq: u64,
    events: &[Json],
    summary: Option<String>,
)
    requires
        call_ensures(missed_events_summary, (session_id, after_seq, events), summary),
    ensures
        summary is Some <==> events@.len() > 0,
        summary matches Some(line) ==> line@ == gap_summary(
            session_id@,
            after_seq,
            events.deep_view(),
        ),
{
}

/// A handshake asks for what its next stage needs, or is over with its result
/// and the head of the stream; it stays in its workspace and its mode.
pub proof fn law_a_handshake_goes_on_or_is_over(
    handshake: &mut Handshake,
    answer: Result<Json, String>,
    step: HandshakeStep,
)
    requires
        call_ensures(Handshake::step, (handshake, answer), step),
    ensures
        ({
            let stage = old(handshake)@.stage;
            let next = stage_after(stage, json::read_model(answer));
            &&& final(handshake)@.stage == next
            &&& final(handshake)@.workspace_path == old(handshake)@.workspace_path
            &&& final(handshake)@.mode == old(handshake)@.mode
            &&& next is Over <==> step is Done
            &&& step matches HandshakeStep::Request { method, params } ==> {
                &&& method@ == stage_method(next)
                &&& params@ == stage_params(
                    next,
                    old(handshake)@.workspace_path,
                    old(handshake)@.mode,
                )
            }
            &&& step matches HandshakeStep::Done { result, event_seq } ==> {
                &&& result matches Ok(session_id) ==> handshake_result(
                    stage,
                    json::read_model(answer),
                ) == Ok::<Seq<char>, Seq<char>>(session_id@)
                &&& result matches Err(message) ==> handshake_result(
                    stage,
                    json::read_model(answer),
                ) == Err::<Seq<char>, Seq<char>>(message@)
                &&& event_seq == subscribed_seq(stage, json::read_model(answer))
            }
        }),
{
}

/// A handshake starts in the stage that its seed decides, in its workspace and
/// its mode, and asks for what that stage needs.
pub proof fn law_a_handshake_starts_from_its_seed(
    seed: &SessionSeed,
    workspace_path: &str,
    mode: WarmMode,
    handshake: Handshake,
    step: HandshakeStep,
    answer: &Json,
    session_id: &str,
    confirmed: bool,
)
    requires
        call_ensures(Handshake::new, (seed, workspace_path, mode), handshake),
        call_ensures(Handshake::request, (&handshake,), step),
        call_ensures(confirms_session, (answer, session_id), confirmed),
    ensures
        handshake@.stage == first_stage(seed.deep_view(), workspace_path@),
        handshake@.workspace_path == workspace_path@,
        handshake@.mode == mode,
        step matches HandshakeStep::Request { method, params } && {
            &&& method@ == stage_method(handshake@.stage)
            &&& params@ == stage_params(handshake@.stage, workspace_path@, mode)
        },
        confirmed <==> confirms(answer@, session_id@),
{
}

} // verus!
