//! Permission policy for the warm bridge's `interaction/requestPermission`
//! callbacks.
//!
//! In `build` mode the core asks the host before risky actions, and the bridge
//! has no interactive approver; the policy here answers in its place. The deny
//! reason reaches the model, so it states the cause and what to do instead.
//!
//! [`WarmPermissionPolicy::AllowSafe`] answers with a bare `allow`: nothing is
//! remembered and every later occurrence asks again.
//!
//! The core announces a pending interaction again every second, with a fresh
//! protocol id and the same `requestId`. Every announcement is answered; only
//! the log line is deduplicated.

use crate::json::Json;
use crate::json::JsonModel;
use crate::text;
use crate::text::is_setting;
use crate::text::str_eq;
use vstd::prelude::*;

verus! {

broadcast use vstd::string::group_string_axioms;

/// Risk tiers the core attaches to a permission request.
#[derive(Clone, Copy, Debug, PartialEq, Eq, Structural)]
pub enum RiskTier {
    Low,
    Medium,
    High,
    Critical,
    Unknown,
}

/// The tier that a wire value names; anything unreadable is unknown.
pub open spec fn tier_of(value: Option<Seq<char>>) -> RiskTier {
    if text::setting_is(value, "low"@) {
        RiskTier::Low
    } else if text::setting_is(value, "medium"@) {
        RiskTier::Medium
    } else if text::setting_is(value, "high"@) {
        RiskTier::High
    } else if text::setting_is(value, "critical"@) {
        RiskTier::Critical
    } else {
        RiskTier::Unknown
    }
}

/// The wire value of a tier.
pub open spec fn tier_name(tier: RiskTier) -> Seq<char> {
    match tier {
        RiskTier::Low => "low"@,
        RiskTier::Medium => "medium"@,
        RiskTier::High => "high"@,
        RiskTier::Critical => "critical"@,
        RiskTier::Unknown => "unknown"@,
    }
}

/// Whether a tier is one that the policy may approve on its own.
pub open spec fn safe_tier(tier: RiskTier) -> bool {
    tier == RiskTier::Low || tier == RiskTier::Medium
}

impl RiskTier {
    /// The tier that a wire value names; anything unreadable is unknown.
    pub fn from_value(value: Option<&str>) -> (tier: RiskTier)
        ensures
            tier == tier_of(value.deep_view()),
    {
        if is_setting(value, "low") {
            RiskTier::Low
        } else if is_setting(value, "medium") {
            RiskTier::Medium
        } else if is_setting(value, "high") {
            RiskTier::High
        } else if is_setting(value, "critical") {
            RiskTier::Critical
        } else {
            RiskTier::Unknown
        }
    }

    /// The wire value, for log lines and denial reasons.
    pub fn wire_name(self) -> (name: &'static str)
        ensures
            name@ == tier_name(self),
    {
        match self {
            RiskTier::Low => "low",
            RiskTier::Medium => "medium",
            RiskTier::High => "high",
            RiskTier::Critical => "critical",
            RiskTier::Unknown => "unknown",
        }
    }

    /// Whether [`WarmPermissionPolicy::AllowSafe`] approves the tier on its
    /// own. Medium covers the small side effects that a normal coding turn
    /// needs; high and critical stay gated.
    pub fn is_safe(self) -> (safe: bool)
        ensures
            safe == safe_tier(self),
    {
        match self {
            RiskTier::Low => true,
            RiskTier::Medium => true,
            RiskTier::High => false,
            RiskTier::Critical => false,
            RiskTier::Unknown => false,
        }
    }
}

/// How `interaction/requestPermission` callbacks are answered in `build` mode.
#[derive(Clone, Copy, Debug, PartialEq, Eq, Structural)]
pub enum WarmPermissionPolicy {
    /// Deny every request with a reason.
    DenyAll,
    /// Approve low and medium risk, once each; deny high and critical risk,
    /// and anything with an unreadable tier, with a reason naming the policy.
    AllowSafe,
}

impl Default for WarmPermissionPolicy {
    fn default() -> (policy: Self)
        ensures
            policy == WarmPermissionPolicy::DenyAll,
    {
        WarmPermissionPolicy::DenyAll
    }
}

/// The denial reason of [`WarmPermissionPolicy::DenyAll`].
pub const DENY_ALL_REASON: &'static str =
    "Denied by the Codex host: the warm ZCode bridge has no interactive approver";

/// The fields of a permission request that the policy and the log line need.
/// Unreadable fields are empty, and an unreadable tier is unknown: the core
/// blocks on an answer.
#[derive(Debug)]
pub struct PermissionRequest<'a> {
    pub tool_name: &'a str,
    pub risk: RiskTier,
    pub session_id: &'a str,
    pub request_id: &'a str,
}

/// The string that an object holds for `key`, or the empty one.
pub open spec fn str_or_empty(params: JsonModel, key: Seq<char>) -> Seq<char> {
    match params.str_at(key) {
        Some(text) => text,
        None => Seq::empty(),
    }
}

fn str_field<'a>(params: &'a Json, key: &str) -> (text: &'a str)
    ensures
        text@ == str_or_empty(params@, key@),
{
    match params.str_at(key) {
        Some(text) => text,
        None => {
            proof {
                reveal_strlit("");
            }
            ""
        },
    }
}

impl<'a> PermissionRequest<'a> {
    /// Reads a request off the callback's params.
    pub fn from_params(params: &'a Json) -> (request: Self)
        ensures
            request.tool_name@ == str_or_empty(params@, "toolName"@),
            request.risk == tier_of(params@.str_at("riskLevel"@)),
            request.session_id@ == str_or_empty(params@, "sessionId"@),
            request.request_id@ == str_or_empty(params@, "requestId"@),
    {
        PermissionRequest {
            tool_name: str_field(params, "toolName"),
            risk: RiskTier::from_value(params.str_at("riskLevel")),
            session_id: str_field(params, "sessionId"),
            request_id: str_field(params, "requestId"),
        }
    }
}

/// A decided permission request: the wire decision and its reason.
#[derive(Debug)]
pub struct PermissionAnswer {
    pub decision: &'static str,
    pub reason: String,
}

/// The policy that a `ZCODE_WARM_PERMISSIONS` value selects; unknown values
/// stay on the default, which denies.
pub open spec fn policy_of(value: Option<Seq<char>>) -> WarmPermissionPolicy {
    if text::setting_is(value, "allow-safe"@) {
        WarmPermissionPolicy::AllowSafe
    } else {
        WarmPermissionPolicy::DenyAll
    }
}

/// Whether a policy approves a request of a tier.
pub open spec fn approves(policy: WarmPermissionPolicy, tier: RiskTier) -> bool {
    policy == WarmPermissionPolicy::AllowSafe && safe_tier(tier)
}

/// The wire decision of a policy on a tier.
pub open spec fn decision_on(policy: WarmPermissionPolicy, tier: RiskTier) -> Seq<char> {
    if approves(policy, tier) {
        "allow"@
    } else {
        "deny"@
    }
}

/// The reason that goes with the decision of a policy on a tier.
pub open spec fn reason_on(policy: WarmPermissionPolicy, tier: RiskTier) -> Seq<char> {
    if policy == WarmPermissionPolicy::DenyAll {
        DENY_ALL_REASON@
    } else if safe_tier(tier) {
        "Auto-approved by the Codex host policy: risk level "@ + tier_name(tier)
            + " is in the safe tier"@
    } else {
        "Denied by the Codex host policy: risk level "@ + tier_name(tier)
            + " is not auto-approved by the warm ZCode bridge; use a lower-risk approach"@
    }
}

impl WarmPermissionPolicy {
    /// The policy that a `ZCODE_WARM_PERMISSIONS` value selects; unknown
    /// values stay on the default, which denies.
    pub fn from_value(value: Option<&str>) -> (policy: Self)
        ensures
            policy == policy_of(value.deep_view()),
    {
        if is_setting(value, "allow-safe") {
            WarmPermissionPolicy::AllowSafe
        } else {
            WarmPermissionPolicy::DenyAll
        }
    }

    /// Decides a permission request. The reason is required on denials and
    /// informative on approvals.
    pub fn resolve(self, request: &PermissionRequest<'_>) -> (answer: PermissionAnswer)
        ensures
            answer.decision@ == decision_on(self, request.risk),
            answer.reason@ == reason_on(self, request.risk),
    {
        match self {
            WarmPermissionPolicy::DenyAll => PermissionAnswer {
                decision: "deny",
                reason: DENY_ALL_REASON.to_owned(),
            },
            WarmPermissionPolicy::AllowSafe => if request.risk.is_safe() {
                PermissionAnswer {
                    decision: "allow",
                    reason: "Auto-approved by the Codex host policy: risk level ".to_owned().concat(
                        request.risk.wire_name(),
                    ).concat(" is in the safe tier"),
                }
            } else {
                PermissionAnswer {
                    decision: "deny",
                    reason: "Denied by the Codex host policy: risk level ".to_owned().concat(
                        request.risk.wire_name(),
                    ).concat(
                        " is not auto-approved by the warm ZCode bridge; use a lower-risk approach",
                    ),
                }
            },
        }
    }
}

/// Cap on remembered (session, request) pairs; a long-lived bridge clears the
/// set rather than growing without bound. The worst case after a clear is one
/// duplicate log line per pending interaction.
pub const PERMISSION_REQUEST_LOG_CAP: usize = 512;

/// Remembers which (session, request) pairs have already been logged, so that
/// the repeated announcements of a pending interaction do not fill the log.
#[derive(Debug)]
pub struct PermissionRequestLog {
    seen: Vec<(String, String)>,
}

spec fn pairs(seen: Seq<(String, String)>) -> Seq<(Seq<char>, Seq<char>)> {
    Seq::new(seen.len(), |i: int| (seen[i].0@, seen[i].1@))
}

impl View for PermissionRequestLog {
    type V = Set<(Seq<char>, Seq<char>)>;

    closed spec fn view(&self) -> Set<(Seq<char>, Seq<char>)> {
        pairs(self.seen@).to_set()
    }
}

/// The pairs remembered after one more sighting.
pub open spec fn log_after(
    seen: Set<(Seq<char>, Seq<char>)>,
    session_id: Seq<char>,
    request_id: Seq<char>,
) -> Set<(Seq<char>, Seq<char>)> {
    if request_id.len() == 0 {
        seen
    } else if seen.len() >= PERMISSION_REQUEST_LOG_CAP {
        Set::empty().insert((session_id, request_id))
    } else {
        seen.insert((session_id, request_id))
    }
}

/// Whether a sighting is new: its pair is not remembered, or cannot be told
/// from others, or everything remembered is about to be cleared.
pub open spec fn new_sighting(
    seen: Set<(Seq<char>, Seq<char>)>,
    session_id: Seq<char>,
    request_id: Seq<char>,
) -> bool {
    ||| request_id.len() == 0
    ||| seen.len() >= PERMISSION_REQUEST_LOG_CAP
    ||| !seen.contains((session_id, request_id))
}

impl PermissionRequestLog {
    /// No pair occurs twice, and there are no more of them than the cap.
    #[verifier::type_invariant]
    spec fn well_formed(self) -> bool {
        &&& pairs(self.seen@).no_duplicates()
        &&& self.seen@.len() <= PERMISSION_REQUEST_LOG_CAP
    }

    /// How many pairs are remembered.
    pub fn len(&self) -> (len: usize)
        ensures
            len == self@.len(),
            self@.finite(),
            len <= PERMISSION_REQUEST_LOG_CAP,
    {
        proof {
            use_type_invariant(self);
            pairs(self.seen@).unique_seq_to_set();
        }
        self.seen.len()
    }

    fn holds_pair(&self, session_id: &str, request_id: &str) -> (known: bool)
        ensures
            known == self@.contains((session_id@, request_id@)),
    {
        let mut i: usize = 0;
        while i < self.seen.len()
            invariant
                i <= self.seen@.len(),
                forall|j: int|
                    0 <= j < i ==> #[trigger] pairs(self.seen@)[j] != (session_id@, request_id@),
            decreases self.seen@.len() - i,
        {
            if str_eq(self.seen[i].0.as_str(), session_id) && str_eq(
                self.seen[i].1.as_str(),
                request_id,
            ) {
                assert(pairs(self.seen@)[i as int] == (session_id@, request_id@));
                return true;
            }
            assert(pairs(self.seen@)[i as int] != (session_id@, request_id@));
            i = i + 1;
        }
        false
    }

    /// Returns whether this (session, request) pair is new. Requests without a
    /// `requestId` are always reported new: they cannot be told apart, so
    /// silencing them could hide real requests.
    pub fn first_sighting(&mut self, session_id: &str, request_id: &str) -> (new: bool)
        ensures
            new == new_sighting(old(self)@, session_id@, request_id@),
            final(self)@ == log_after(old(self)@, session_id@, request_id@),
            final(self)@.finite(),
            final(self)@.len() <= PERMISSION_REQUEST_LOG_CAP,
    {
        proof {
            use_type_invariant(&*self);
            pairs(self.seen@).unique_seq_to_set();
        }
        if request_id.is_empty() {
            return true;
        }
        if self.seen.len() >= PERMISSION_REQUEST_LOG_CAP {
            self.seen = Vec::new();
        }
        let ghost pair = (session_id@, request_id@);
        let ghost remembered = self@;
        proof {
            if old(self)@.len() >= PERMISSION_REQUEST_LOG_CAP {
                assert(remembered =~= Set::empty());
            }
        }
        let known = self.holds_pair(session_id, request_id);
        if !known {
            let mut seen: Vec<(String, String)> = Vec::new();
            std::mem::swap(&mut seen, &mut self.seen);
            let ghost before = pairs(seen@);
            seen.push((session_id.to_owned(), request_id.to_owned()));
            proof {
                assert(pairs(seen@) =~= before.push((session_id@, request_id@)));
                assert forall|other: (Seq<char>, Seq<char>)|
                    before.push(pair).contains(other) <==> before.contains(other) || other
                        == pair by {
                    vstd::seq_lib::lemma_seq_contains_after_push(before, pair, other);
                }
                assert(pairs(seen@).no_duplicates());
            }
            self.seen = seen;
            assert(self@ =~= remembered.insert(pair));
        }
        proof {
            pairs(self.seen@).unique_seq_to_set();
            assert(self@ =~= remembered.insert(pair));
        }
        !known
    }
}

impl Default for PermissionRequestLog {
    fn default() -> (log: Self)
        ensures
            log@ == Set::<(Seq<char>, Seq<char>)>::empty(),
    {
        let log = PermissionRequestLog { seen: Vec::new() };
        assert(log@ =~= Set::empty());
        log
    }
}

/// The policy that denies everything approves no tier.
pub proof fn law_deny_all_denies_every_tier(tier: RiskTier)
    ensures
        decision_on(WarmPermissionPolicy::DenyAll, tier) == "deny"@,
        reason_on(WarmPermissionPolicy::DenyAll, tier) == DENY_ALL_REASON@,
{
}

/// The policy that allows what is safe approves low and medium risk and
/// nothing else; a tier that cannot be read is denied.
pub proof fn law_allow_safe_approves_only_the_safe_tiers(value: Option<Seq<char>>)
    ensures
        approves(WarmPermissionPolicy::AllowSafe, tier_of(value)) <==> text::setting_is(
            value,
            "low"@,
        ) || text::setting_is(value, "medium"@),
{
    reveal_strlit("low");
    reveal_strlit("medium");
    reveal_strlit("high");
    reveal_strlit("critical");
    assert("high"@.len() != "low"@.len());
    assert("critical"@.len() != "low"@.len());
}

/// The reason that goes with a decision of the policy that allows what is safe
/// names the tier.
pub proof fn law_reason_names_the_tier(tier: RiskTier)
    ensures
        exists|before: Seq<char>, after: Seq<char>|
            reason_on(WarmPermissionPolicy::AllowSafe, tier) == #[trigger] (before + tier_name(
                tier,
            ) + after),
{
    let reason = reason_on(WarmPermissionPolicy::AllowSafe, tier);
    if safe_tier(tier) {
        assert(reason == "Auto-approved by the Codex host policy: risk level "@ + tier_name(tier)
            + " is in the safe tier"@);
    } else {
        assert(reason == "Denied by the Codex host policy: risk level "@ + tier_name(tier)
            + " is not auto-approved by the warm ZCode bridge; use a lower-risk approach"@);
    }
}

/// A pair that has been sighted is not new when it is sighted next, and stays
/// known through other sightings, as long as the log does not fill up and get
/// cleared.
pub proof fn law_second_sighting_is_known(
    seen: Set<(Seq<char>, Seq<char>)>,
    session_id: Seq<char>,
    request_id: Seq<char>,
    other_session: Seq<char>,
    other_request: Seq<char>,
)
    requires
        request_id.len() > 0,
    ensures
        ({
            let once = log_after(seen, session_id, request_id);
            let later = log_after(once, other_session, other_request);
            &&& once.len() < PERMISSION_REQUEST_LOG_CAP ==> !new_sighting(
                once,
                session_id,
                request_id,
            )
            &&& once.len() < PERMISSION_REQUEST_LOG_CAP && later.len() < PERMISSION_REQUEST_LOG_CAP
                ==> !new_sighting(later, session_id, request_id)
        }),
{
}

/// The log never holds more pairs than its cap.
pub proof fn law_log_stays_bounded(
    seen: Set<(Seq<char>, Seq<char>)>,
    session_id: Seq<char>,
    request_id: Seq<char>,
)
    requires
        seen.finite(),
        seen.len() <= PERMISSION_REQUEST_LOG_CAP,
    ensures
        log_after(seen, session_id, request_id).finite(),
        log_after(seen, session_id, request_id).len() <= PERMISSION_REQUEST_LOG_CAP,
{
}

/// A tier is the one that is named, white space aside, and unknown where none of
/// the four is; it goes by that name.
pub proof fn law_a_tier_is_the_one_that_is_named(value: Option<Seq<char>>, tier: RiskTier)
    ensures
        tier_of(value) == RiskTier::Low <==> text::setting_is(value, "low"@),
        tier_of(value) == RiskTier::Medium <==> text::setting_is(value, "medium"@),
        tier_of(value) == RiskTier::High <==> text::setting_is(value, "high"@),
        tier_of(value) == RiskTier::Critical <==> text::setting_is(value, "critical"@),
        tier_name(RiskTier::Low) == "low"@,
        tier_name(RiskTier::Medium) == "medium"@,
        tier_name(RiskTier::High) == "high"@,
        tier_name(RiskTier::Critical) == "critical"@,
        tier_name(RiskTier::Unknown) == "unknown"@,
        safe_tier(tier) <==> tier == RiskTier::Low || tier == RiskTier::Medium,
{
    reveal_strlit("low");
    reveal_strlit("medium");
    reveal_strlit("high");
    reveal_strlit("critical");
    assert("low"@.len() == 3 && "medium"@.len() == 6 && "high"@.len() == 4 && "critical"@.len()
        == 8);
}

/// Only `allow-safe`, white space aside, selects the policy that approves
/// anything. It approves low and medium risk; everything else is denied, and
/// the reason says which policy decided, on which tier.
pub proof fn law_a_policy_decides_by_the_tier(
    value: Option<Seq<char>>,
    policy: WarmPermissionPolicy,
    tier: RiskTier,
)
    ensures
        policy_of(value) == WarmPermissionPolicy::AllowSafe <==> text::setting_is(
            value,
            "allow-safe"@,
        ),
        ({
            let allowed = policy == WarmPermissionPolicy::AllowSafe && (tier == RiskTier::Low
                || tier == RiskTier::Medium);
            &&& allowed ==> decision_on(policy, tier) == "allow"@ && reason_on(policy, tier)
                == "Auto-approved by the Codex host policy: risk level "@ + tier_name(tier)
                + " is in the safe tier"@
            &&& !allowed ==> decision_on(policy, tier) == "deny"@
            &&& policy == WarmPermissionPolicy::DenyAll ==> reason_on(policy, tier)
                == "Denied by the Codex host: the warm ZCode bridge has no interactive approver"@
            &&& !allowed && policy == WarmPermissionPolicy::AllowSafe ==> reason_on(policy, tier)
                == "Denied by the Codex host policy: risk level "@ + tier_name(tier)
                + " is not auto-approved by the warm ZCode bridge; use a lower-risk approach"@
        }),
{
}

/// A field that a request holds as a string is read as it is; any other is read
/// as empty.
pub proof fn law_unreadable_fields_are_empty(params: JsonModel, key: Seq<char>, said: Seq<char>)
    ensures
        params.str_at(key) == Some(said) ==> str_or_empty(params, key) == said,
        params.str_at(key) is None ==> str_or_empty(params, key).len() == 0,
{
}

/// The first sighting of a pair is new and every pair sighted is remembered, on
/// its own, next to the others; a request without an id is always new and not
/// remembered. Only a log with as many as 512 pairs forgets them, all at once.
pub proof fn law_sightings_are_remembered(
    seen: Set<(Seq<char>, Seq<char>)>,
    session_id: Seq<char>,
    request_id: Seq<char>,
    other: (Seq<char>, Seq<char>),
)
    ensures
        ({
            let pair = (session_id, request_id);
            let after = log_after(seen, session_id, request_id);
            let new = new_sighting(seen, session_id, request_id);
            &&& request_id.len() == 0 ==> new && after == seen
            &&& request_id.len() > 0 ==> after.contains(pair)
            &&& request_id.len() > 0 && seen.len() < 512 ==> (new <==> !seen.contains(pair))
            &&& request_id.len() > 0 && seen.len() < 512 && other != pair ==> (after.contains(other)
                <==> seen.contains(other))
            &&& request_id.len() > 0 && seen.len() >= 512 ==> new && (after.contains(other)
                <==> other == pair)
        }),
{
}

/// A request is read off its params field by field, and answered by the policy
/// on the tier that it has.
pub proof fn law_a_request_is_answered_by_its_tier(
    params: &Json,
    request: PermissionRequest<'_>,
    policy: WarmPermissionPolicy,
    answer: PermissionAnswer,
)
    requires
        call_ensures(PermissionRequest::from_params, (params,), request),
        call_ensures(WarmPermissionPolicy::resolve, (policy, &request), answer),
    ensures
        request.tool_name@ == str_or_empty(params@, "toolName"@),
        request.session_id@ == str_or_empty(params@, "sessionId"@),
        request.request_id@ == str_or_empty(params@, "requestId"@),
        request.risk == tier_of(params@.str_at("riskLevel"@)),
        answer.decision@ == "allow"@ <==> policy == WarmPermissionPolicy::AllowSafe && (
        text::setting_is(params@.str_at("riskLevel"@), "low"@) || text::setting_is(
            params@.str_at("riskLevel"@),
            "medium"@,
        )),
        answer.reason@ == reason_on(policy, request.risk),
{
    reveal_strlit("allow");
    reveal_strlit("deny");
    assert("allow"@.len() != "deny"@.len());
    law_allow_safe_approves_only_the_safe_tiers(params@.str_at("riskLevel"@));
}

/// A sighting is reported and remembered as the log says.
pub proof fn law_a_log_reports_what_it_has_not_seen(
    log: &mut PermissionRequestLog,
    session_id: &str,
    request_id: &str,
    new: bool,
    value: Option<&str>,
    policy: WarmPermissionPolicy,
    tier: RiskTier,
)
    requires
        call_ensures(PermissionRequestLog::first_sighting, (log, session_id, request_id), new),
        call_ensures(WarmPermissionPolicy::from_value, (value,), policy),
        call_ensures(RiskTier::from_value, (value,), tier),
    ensures
        new <==> new_sighting(old(log)@, session_id@, request_id@),
        final(log)@ == log_after(old(log)@, session_id@, request_id@),
        policy == policy_of(value.deep_view()),
        tier == tier_of(value.deep_view()),
{
}

} // verus!
