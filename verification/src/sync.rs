//! Cross-checking SPICE positions against JPL Horizons: which bodies to
//! query, how a round is reported, and when a failed round is retried.

use vstd::prelude::*;
use vstd::arithmetic::power2::{pow2, lemma2_to64, lemma_pow2_unfold, lemma_pow2_strictly_increases};
use crate::text::{chars_eq_ignore_ascii_case, chars_of, decimal, decimal_text, eq_ignore_ascii_case};
use crate::ephemeris::{horizons_command, horizons_command_for_target};
use crate::bodies::{BodyIdentity, BodyIdentityView, body_views};

verus! {

broadcast use vstd::string::group_string_axioms;

/// How many automatic retries follow a failed round.
pub const HORIZONS_RETRY_MAX_ATTEMPTS: u32 = 5;

/// The longest wait before an automatic retry, in seconds.
pub const HORIZONS_RETRY_MAX_DELAY_SECS: u32 = 30;

/// The wait before retry number `attempt + 1`: one second, doubled with
/// each attempt, capped at thirty seconds.
pub open spec fn retry_delay(attempt: nat) -> nat {
    if pow2(attempt) < 30 {
        pow2(attempt)
    } else {
        30
    }
}

/// The wait in seconds before the retry that follows attempt
/// `retry_attempt` (exponential back-off from one second, capped).
pub fn compute_retry_delay_seconds(retry_attempt: u32) -> (delay: u32)
    ensures
        delay == retry_delay(retry_attempt as nat),
{
    let mut delay: u32 = 1;
    let mut k: u32 = 0;
    proof {
        lemma2_to64();
    }
    while k < retry_attempt && delay < 30
        invariant
            k <= retry_attempt,
            delay == pow2(k as nat),
            delay < 60,
        decreases retry_attempt - k,
    {
        proof {
            lemma_pow2_unfold((k + 1) as nat);
        }
        delay = delay * 2;
        k = k + 1;
    }
    if delay >= 30 {
        proof {
            if k < retry_attempt {
                lemma_pow2_strictly_increases(k as nat, retry_attempt as nat);
            }
        }
        30
    } else {
        delay
    }
}

/// A body to query in a sync round.
pub struct PlannedTarget {
    /// Index of the body in the catalogue.
    pub index: usize,
    pub display_name: String,
    /// The Horizons `COMMAND` code.
    pub command: String,
}

/// The mathematical form of a [`PlannedTarget`].
pub struct PlannedTargetView {
    pub index: int,
    pub display_name: Seq<char>,
    pub command: Seq<char>,
}

impl View for PlannedTarget {
    type V = PlannedTargetView;

    open spec fn view(&self) -> PlannedTargetView {
        PlannedTargetView {
            index: self.index as int,
            display_name: self.display_name@,
            command: self.command@,
        }
    }
}

/// Whether a body is the Sun, which is never queried (it is the origin).
pub open spec fn is_sun(b: BodyIdentityView) -> bool {
    eq_ignore_ascii_case(b.spice_target, "SUN"@)
}

/// The bodies of `bodies` to query, in order: those other than the Sun that
/// have a Horizons command.
pub open spec fn planned_targets(bodies: Seq<BodyIdentityView>) -> Seq<PlannedTargetView>
    decreases bodies.len(),
{
    if bodies.len() == 0 {
        Seq::empty()
    } else {
        let before = planned_targets(bodies.drop_last());
        let b = bodies.last();
        if !is_sun(b) && horizons_command(b.spice_target) is Some {
            before.push(
                PlannedTargetView {
                    index: bodies.len() - 1,
                    display_name: b.display_name,
                    command: horizons_command(b.spice_target)->0,
                },
            )
        } else {
            before
        }
    }
}

/// The report for a body that has no Horizons command.
pub open spec fn unmapped_failure(display_name: Seq<char>) -> Seq<char> {
    display_name + ": no Horizons command mapping"@
}

/// The failures noted before any query: one per body other than the Sun
/// without a Horizons command, in order.
pub open spec fn unmapped_failures(bodies: Seq<BodyIdentityView>) -> Seq<Seq<char>>
    decreases bodies.len(),
{
    if bodies.len() == 0 {
        Seq::empty()
    } else {
        let before = unmapped_failures(bodies.drop_last());
        let b = bodies.last();
        if !is_sun(b) && horizons_command(b.spice_target) is None {
            before.push(unmapped_failure(b.display_name))
        } else {
            before
        }
    }
}

/// The number of bodies a round covers: all but the Sun.
pub open spec fn sync_target_count(bodies: Seq<BodyIdentityView>) -> nat
    decreases bodies.len(),
{
    if bodies.len() == 0 {
        0
    } else {
        sync_target_count(bodies.drop_last()) + if is_sun(bodies.last()) {
            0nat
        } else {
            1nat
        }
    }
}

/// The views of a vector of planned targets.
pub open spec fn target_views(targets: Seq<PlannedTarget>) -> Seq<PlannedTargetView> {
    targets.map_values(|t: PlannedTarget| t@)
}

/// The views of a vector of texts.
pub open spec fn text_views(texts: Seq<String>) -> Seq<Seq<char>> {
    texts.map_values(|t: String| t@)
}

/// What a sync round sets out to do.
pub struct HorizonsPlan {
    /// Bodies the round covers (all but the Sun).
    pub target_count: usize,
    /// Bodies to query.
    pub targets: Vec<PlannedTarget>,
    /// Bodies that cannot be queried, reported up front.
    pub initial_failures: Vec<String>,
}

/// The bodies to query and the failures known before querying.
pub fn plan_horizons_targets(bodies: &Vec<BodyIdentity>) -> (plan: HorizonsPlan)
    ensures
        plan.target_count == sync_target_count(body_views(bodies@)),
        target_views(plan.targets@) == planned_targets(body_views(bodies@)),
        text_views(plan.initial_failures@) == unmapped_failures(body_views(bodies@)),
{
    let ghost bv = body_views(bodies@);
    let sun = chars_of("SUN");
    let mut targets: Vec<PlannedTarget> = Vec::new();
    let mut failures: Vec<String> = Vec::new();
    let mut count: usize = 0;
    let mut i: usize = 0;
    assert(bv.take(0) =~= Seq::<BodyIdentityView>::empty());
    while i < bodies.len()
        invariant
            bv == body_views(bodies@),
            sun@ == "SUN"@,
            i <= bodies.len(),
            count as nat == sync_target_count(bv.take(i as int)),
            count <= i,
            target_views(targets@) =~= planned_targets(bv.take(i as int)),
            text_views(failures@) =~= unmapped_failures(bv.take(i as int)),
        decreases bodies.len() - i,
    {
        let b = &bodies[i];
        assert(bv.take((i + 1) as int).drop_last() =~= bv.take(i as int));
        assert(bv.take((i + 1) as int).last() == b@);
        let target_chars = chars_of(b.spice_target.as_str());
        if !chars_eq_ignore_ascii_case(&target_chars, &sun) {
            count = count + 1;
            match horizons_command_for_target(b.spice_target.as_str()) {
                Some(code) => {
                    let t = PlannedTarget {
                        index: i,
                        display_name: b.display_name.clone(),
                        command: code.to_string(),
                    };
                    let ghost before = targets@;
                    targets.push(t);
                    assert(target_views(targets@) =~= target_views(before).push(t@));
                },
                None => {
                    let mut f = b.display_name.clone();
                    f.append(": no Horizons command mapping");
                    let ghost before = failures@;
                    failures.push(f);
                    assert(text_views(failures@) =~= text_views(before).push(f@));
                },
            }
        }
        i = i + 1;
    }
    assert(bv.take(bodies.len() as int) =~= bv);
    HorizonsPlan { target_count: count, targets, initial_failures: failures }
}

/// Each failed round doubles the wait before the next retry, until the
/// thirty-second cap.
pub proof fn lemma_retry_delay_doubles(attempt: nat)
    ensures
        retry_delay(attempt + 1) == if 2 * retry_delay(attempt) < 30 {
            2 * retry_delay(attempt)
        } else {
            30
        },
{
    lemma_pow2_unfold(attempt + 1);
    vstd::arithmetic::power2::lemma_pow2_pos(attempt);
}

/// The status of a finished round: active when every queried body was
/// validated, partial when some were and some failed, unavailable when
/// none was (naming the first failure).
pub open spec fn round_status(
    validated: nat,
    target_count: nat,
    utc: Seq<char>,
    failures: Seq<Seq<char>>,
    max_delta_km: Seq<char>,
    max_delta_body: Seq<char>,
) -> Seq<char> {
    if validated > 0 {
        if failures.len() == 0 {
            "Horizons sync active: "@ + decimal(validated) + "/"@ + decimal(target_count)
                + " validated @ "@ + utc + " UTC (max Δ "@ + max_delta_km + " km: "@
                + max_delta_body + ")"@
        } else {
            "Horizons sync partial: "@ + decimal(validated) + "/"@ + decimal(target_count)
                + " validated @ "@ + utc + " UTC ("@ + decimal(failures.len()) + " failed, max Δ "@
                + max_delta_km + " km: "@ + max_delta_body + ")"@
        }
    } else {
        "Horizons sync unavailable @ "@ + utc + " UTC: "@ + if failures.len() > 0 {
            failures[0]
        } else {
            "no targets validated"@
        }
    }
}

/// The report for a body whose query failed.
pub open spec fn query_failure(display_name: Seq<char>, error: Seq<char>) -> Seq<char> {
    display_name + ": "@ + error
}

/// The line recording a failed query of a body.
pub fn query_failure_line(display_name: &str, error: &str) -> (line: String)
    ensures
        line@ == query_failure(display_name@, error@),
{
    let mut line = display_name.to_string();
    line.append(": ");
    line.append(error);
    line
}

/// What the query of one body came to: the body's display name, and the
/// error when the query failed.
pub struct QueryOutcome {
    pub display_name: String,
    pub error: Option<String>,
}

/// The mathematical form of a [`QueryOutcome`].
pub struct QueryOutcomeView {
    pub display_name: Seq<char>,
    pub error: Option<Seq<char>>,
}

impl View for QueryOutcome {
    type V = QueryOutcomeView;

    open spec fn view(&self) -> QueryOutcomeView {
        QueryOutcomeView {
            display_name: self.display_name@,
            error: match self.error {
                Some(e) => Some(e@),
                None => None,
            },
        }
    }
}

/// The views of a vector of query outcomes.
pub open spec fn outcome_views(outcomes: Seq<QueryOutcome>) -> Seq<QueryOutcomeView> {
    outcomes.map_values(|o: QueryOutcome| o@)
}

/// How many of `outcomes` validated their body.
pub open spec fn validated_in(outcomes: Seq<QueryOutcomeView>) -> nat
    decreases outcomes.len(),
{
    if outcomes.len() == 0 {
        0
    } else {
        validated_in(outcomes.drop_last()) + if outcomes.last().error is None {
            1nat
        } else {
            0nat
        }
    }
}

/// The failures of a round that began with `initial` and whose queries came
/// to `outcomes`: `initial`, then one report per failed query, in order.
pub open spec fn failures_after(initial: Seq<Seq<char>>, outcomes: Seq<QueryOutcomeView>) -> Seq<
    Seq<char>,
>
    decreases outcomes.len(),
{
    if outcomes.len() == 0 {
        initial
    } else {
        let before = failures_after(initial, outcomes.drop_last());
        match outcomes.last().error {
            Some(e) => before.push(query_failure(outcomes.last().display_name, e)),
            None => before,
        }
    }
}

proof fn lemma_validated_within(outcomes: Seq<QueryOutcomeView>)
    ensures
        validated_in(outcomes) <= outcomes.len(),
    decreases outcomes.len(),
{
    if outcomes.len() > 0 {
        lemma_validated_within(outcomes.drop_last());
    }
}

/// Tallies the queries of a round: the number of bodies validated, and the
/// failures, the plan's `initial_failures` first and then each failed query
/// in the order the queries ran.
pub fn tally_query_outcomes(initial_failures: Vec<String>, outcomes: &Vec<QueryOutcome>) -> (r: (
    usize,
    Vec<String>,
))
    ensures
        r.0 == validated_in(outcome_views(outcomes@)),
        text_views(r.1@) == failures_after(text_views(initial_failures@), outcome_views(outcomes@)),
{
    let ghost ov = outcome_views(outcomes@);
    let ghost init = text_views(initial_failures@);
    let mut failures = initial_failures;
    let mut validated: usize = 0;
    let mut i: usize = 0;
    while i < outcomes.len()
        invariant
            i <= outcomes.len(),
            ov == outcome_views(outcomes@),
            validated == validated_in(ov.take(i as int)),
            text_views(failures@) == failures_after(init, ov.take(i as int)),
        decreases outcomes.len() - i,
    {
        proof {
            assert(ov.take((i + 1) as int).drop_last() =~= ov.take(i as int));
            lemma_validated_within(ov.take(i as int));
        }
        match &outcomes[i].error {
            Some(e) => {
                let line = query_failure_line(outcomes[i].display_name.as_str(), e.as_str());
                let ghost before = failures@;
                failures.push(line);
                assert(text_views(failures@) =~= text_views(before).push(line@));
            },
            None => {
                validated = validated + 1;
            },
        }
        i = i + 1;
    }
    assert(ov.take(outcomes.len() as int) =~= ov);
    (validated, failures)
}

/// The outcome of a finished round: whether Horizons offsets are in use
/// (some body was validated) and the status line. `max_delta_km` is the
/// largest SPICE-to-Horizons distance, already written in whole km.
pub fn summarize_sync_round(
    validated_count: usize,
    target_count: usize,
    utc_timestamp: &str,
    failures: &Vec<String>,
    max_delta_km: &str,
    max_delta_body: &str,
) -> (r: (bool, String))
    ensures
        r.0 == (validated_count > 0),
        r.1@ == round_status(
            validated_count as nat,
            target_count as nat,
            utc_timestamp@,
            text_views(failures@),
            max_delta_km@,
            max_delta_body@,
        ),
{
    let enabled = validated_count > 0;
    let mut line;
    if enabled {
        if failures.len() == 0 {
            line = "Horizons sync active: ".to_string();
        } else {
            line = "Horizons sync partial: ".to_string();
        }
        line.append(decimal_text(validated_count as u64).as_str());
        line.append("/");
        line.append(decimal_text(target_count as u64).as_str());
        line.append(" validated @ ");
        line.append(utc_timestamp);
        if failures.len() == 0 {
            line.append(" UTC (max Δ ");
        } else {
            line.append(" UTC (");
            line.append(decimal_text(failures.len() as u64).as_str());
            line.append(" failed, max Δ ");
        }
        line.append(max_delta_km);
        line.append(" km: ");
        line.append(max_delta_body);
        line.append(")");
    } else {
        line = "Horizons sync unavailable @ ".to_string();
        line.append(utc_timestamp);
        line.append(" UTC: ");
        if failures.len() > 0 {
            line.append(failures[0].as_str());
        } else {
            line.append("no targets validated");
        }
    }
    (enabled, line)
}


/// The retry bookkeeping of the Horizons sync: whether offsets are in use,
/// the status line, the failures of the last round, a pending manual retry
/// request, and how many automatic retries have been scheduled.
pub struct HorizonsRetry {
    pub enabled: bool,
    pub status_line: String,
    pub failures: Vec<String>,
    pub retry_requested: bool,
    pub retry_attempt: u32,
}

/// The note added to the status when no retry follows.
pub open spec fn exhausted_note() -> Seq<char> {
    " | retries exhausted (5 attempts)"@
}

/// The note added to the status when a retry is scheduled after `delay`
/// seconds as attempt `attempt` of five.
pub open spec fn retrying_note(delay: nat, attempt: nat) -> Seq<char> {
    " | retrying in "@ + decimal(delay) + ".0s ("@ + decimal(attempt) + "/5)"@
}

impl HorizonsRetry {
    /// The state before any round: idle, offsets unused, nothing pending.
    pub fn new() -> (s: Self)
        ensures
            !s.enabled,
            s.status_line@ == "Horizons sync idle"@,
            s.failures@.len() == 0,
            !s.retry_requested,
            s.retry_attempt == 0,
    {
        HorizonsRetry {
            enabled: false,
            status_line: "Horizons sync idle".to_string(),
            failures: Vec::new(),
            retry_requested: false,
            retry_attempt: 0,
        }
    }

    /// A retry asked for by the user: it restarts the back-off.
    pub fn request_retry(&mut self)
        ensures
            final(self).retry_requested,
            final(self).retry_attempt == 0,
            final(self).status_line@ == "Horizons sync retry requested"@,
            final(self).enabled == old(self).enabled,
            final(self).failures@ == old(self).failures@,
    {
        self.retry_requested = true;
        self.retry_attempt = 0;
        self.status_line = "Horizons sync retry requested".to_string();
    }

    /// Whether to start a round now. Nothing starts while a round runs, nor
    /// without a user request or a due scheduled retry. A user request
    /// restarts the back-off; a started round consumes the request. When
    /// this returns true, the caller drops the scheduled retry time.
    pub fn begin_retry(&mut self, task_running: bool, scheduled_retry_due: bool) -> (start: bool)
        ensures
            start == (!task_running && (old(self).retry_requested || scheduled_retry_due)),
            start ==> !final(self).retry_requested,
            start ==> final(self).retry_attempt == if old(self).retry_requested {
                0
            } else {
                old(self).retry_attempt
            },
            !start ==> final(self).retry_requested == old(self).retry_requested,
            !start ==> final(self).retry_attempt == old(self).retry_attempt,
            final(self).enabled == old(self).enabled,
            final(self).status_line@ == old(self).status_line@,
            final(self).failures@ == old(self).failures@,
    {
        if task_running {
            return false;
        }
        if !self.retry_requested && !scheduled_retry_due {
            return false;
        }
        if self.retry_requested {
            self.retry_attempt = 0;
        }
        self.retry_requested = false;
        true
    }

    /// Records a finished round and decides the next automatic retry.
    ///
    /// A successful round (`enabled`) resets the back-off and schedules
    /// nothing. A failed round schedules a retry after
    /// `compute_retry_delay_seconds(attempt)` seconds, counting the attempt,
    /// until five have been made; then it schedules nothing and says so.
    /// Returns the delay in seconds before the next retry, if one follows.
    pub fn apply_horizons_sync_result(
        &mut self,
        enabled: bool,
        status_line: String,
        failures: Vec<String>,
    ) -> (next_retry: Option<u32>)
        ensures
            final(self).enabled == enabled,
            final(self).failures@ == failures@,
            final(self).retry_requested == old(self).retry_requested,
            old(self).retry_attempt <= HORIZONS_RETRY_MAX_ATTEMPTS ==> final(self).retry_attempt
                <= HORIZONS_RETRY_MAX_ATTEMPTS,
            enabled ==> {
                &&& next_retry is None
                &&& final(self).retry_attempt == 0
                &&& final(self).status_line@ == status_line@
            },
            !enabled && old(self).retry_attempt >= HORIZONS_RETRY_MAX_ATTEMPTS ==> {
                &&& next_retry is None
                &&& final(self).retry_attempt == old(self).retry_attempt
                &&& final(self).status_line@ == status_line@ + exhausted_note()
            },
            !enabled ==> final(self).retry_attempt == failed_round(
                old(self).retry_attempt as nat,
            ).0,
            !enabled ==> match next_retry {
                Some(d) => failed_round(old(self).retry_attempt as nat).1 == Some(d as nat),
                None => failed_round(old(self).retry_attempt as nat).1 is None,
            },
            !enabled && old(self).retry_attempt < HORIZONS_RETRY_MAX_ATTEMPTS ==> {
                &&& next_retry == Some(retry_delay(old(self).retry_attempt as nat) as u32)
                &&& final(self).retry_attempt == old(self).retry_attempt + 1
                &&& final(self).status_line@ == status_line@ + retrying_note(
                    retry_delay(old(self).retry_attempt as nat),
                    final(self).retry_attempt as nat,
                )
            },
    {
        self.enabled = enabled;
        self.status_line = status_line;
        self.failures = failures;
        if enabled {
            self.retry_attempt = 0;
            return None;
        }
        if self.retry_attempt >= HORIZONS_RETRY_MAX_ATTEMPTS {
            self.status_line.append(" | retries exhausted (5 attempts)");
            return None;
        }
        let delay = compute_retry_delay_seconds(self.retry_attempt);
        self.retry_attempt = self.retry_attempt + 1;
        self.status_line.append(" | retrying in ");
        self.status_line.append(decimal_text(delay as u64).as_str());
        self.status_line.append(".0s (");
        self.status_line.append(decimal_text(self.retry_attempt as u64).as_str());
        self.status_line.append("/5)");
        Some(delay)
    }

    /// Opens a round if SPICE is active and an HTTP client exists: notes
    /// which bodies to query and reports the round as in progress at
    /// `utc_timestamp`. Otherwise reports why no round can run.
    pub fn start_sync(
        &mut self,
        spice_enabled: bool,
        client_available: bool,
        utc_timestamp: &str,
        bodies: &Vec<BodyIdentity>,
    ) -> (plan: Option<HorizonsPlan>)
        ensures
            !spice_enabled ==> plan is None && final(self).status_line@
                == "Horizons sync disabled: SPICE mode not active"@ && final(self).failures@
                == old(self).failures@,
            spice_enabled && !client_available ==> plan is None && final(self).status_line@
                == "Horizons sync unavailable: could not initialize Horizons HTTP client"@
                && final(self).failures@ == old(self).failures@,
            spice_enabled && client_available ==> match plan {
                Some(p) => {
                    &&& p.target_count == sync_target_count(body_views(bodies@))
                    &&& target_views(p.targets@) == planned_targets(body_views(bodies@))
                    &&& text_views(p.initial_failures@) == unmapped_failures(body_views(bodies@))
                    &&& final(self).status_line@ == "Horizons sync in progress: "@ + decimal(
                        planned_targets(body_views(bodies@)).len(),
                    ) + "/"@ + decimal(sync_target_count(body_views(bodies@))) + " queued @ "@
                        + utc_timestamp@ + " UTC"@
                    &&& final(self).failures@.len() == 0
                },
                None => false,
            },
            final(self).enabled == old(self).enabled,
            final(self).retry_requested == old(self).retry_requested,
            final(self).retry_attempt == old(self).retry_attempt,
    {
        if !spice_enabled {
            self.status_line = "Horizons sync disabled: SPICE mode not active".to_string();
            return None;
        }
        if !client_available {
            self.status_line = "Horizons sync unavailable: could not initialize Horizons HTTP client".to_string();
            return None;
        }
        let plan = plan_horizons_targets(bodies);
        let mut line = "Horizons sync in progress: ".to_string();
        proof {
            assert(target_views(plan.targets@).len() == plan.targets@.len());
        }
        line.append(decimal_text(plan.targets.len() as u64).as_str());
        line.append("/");
        line.append(decimal_text(plan.target_count as u64).as_str());
        line.append(" queued @ ");
        line.append(utc_timestamp);
        line.append(" UTC");
        self.status_line = line;
        self.failures = Vec::new();
        Some(plan)
    }
}

/// The back-off never waits more than thirty seconds, and grows with each
/// attempt until it reaches that cap.
pub proof fn lemma_retry_delay_bounded_and_monotone(a: nat, b: nat)
    requires
        a <= b,
    ensures
        1 <= retry_delay(a) <= 30,
        retry_delay(a) <= retry_delay(b),
{
    vstd::arithmetic::power2::lemma_pow2_pos(a);
    if a < b {
        lemma_pow2_strictly_increases(a, b);
    }
}


/// What one failed round does to a retry count of `attempt`: the count
/// after it, and the wait in seconds before the retry it schedules, if it
/// schedules one. Retries stop once five have been scheduled.
pub open spec fn failed_round(attempt: nat) -> (nat, Option<nat>) {
    if attempt >= HORIZONS_RETRY_MAX_ATTEMPTS {
        (attempt, None)
    } else {
        (attempt + 1, Some(retry_delay(attempt)))
    }
}

/// The retry count after `rounds` failed rounds in a row, starting from a
/// count of `attempt`.
pub open spec fn attempts_after_failures(attempt: nat, rounds: nat) -> nat
    decreases rounds,
{
    if rounds == 0 {
        attempt
    } else {
        failed_round(attempts_after_failures(attempt, (rounds - 1) as nat)).0
    }
}

/// The wait before the retry that failed round number `round` (counted
/// from one) of a run of failed rounds schedules, starting from a count of
/// `attempt`; `None` when it schedules none.
pub open spec fn retry_after_failures(attempt: nat, round: nat) -> Option<nat>
    recommends
        round >= 1,
{
    failed_round(attempts_after_failures(attempt, (round - 1) as nat)).1
}

/// Failed rounds in a row back off and then give up: from a retry count of
/// at most five, after `rounds` failed rounds the count is
/// `min(attempt + rounds, 5)`, and failed round number `rounds` schedules a
/// retry after `2^(attempt + rounds - 1)` seconds while that is at most the
/// fifth retry, and none after. From a fresh state the waits are 1, 2, 4,
/// 8 and 16 seconds, and every later failed round schedules nothing.
pub proof fn lemma_failed_rounds_back_off(attempt: nat, rounds: nat)
    requires
        attempt <= HORIZONS_RETRY_MAX_ATTEMPTS,
    ensures
        attempts_after_failures(attempt, rounds) == if attempt + rounds
            <= HORIZONS_RETRY_MAX_ATTEMPTS {
            attempt + rounds
        } else {
            HORIZONS_RETRY_MAX_ATTEMPTS as nat
        },
        rounds >= 1 ==> retry_after_failures(attempt, rounds) == if attempt + rounds
            <= HORIZONS_RETRY_MAX_ATTEMPTS {
            Some(pow2((attempt + rounds - 1) as nat))
        } else {
            None
        },
    decreases rounds,
{
    if rounds > 0 {
        lemma_failed_rounds_back_off(attempt, (rounds - 1) as nat);
        let a = attempts_after_failures(attempt, (rounds - 1) as nat);
        if a < HORIZONS_RETRY_MAX_ATTEMPTS {
            lemma2_to64();
            lemma_pow2_strictly_increases(a, 5);
            assert(retry_delay(a) == pow2(a));
        }
    }
}

/// The lines that show the failures of the last round: the first three,
/// then a count of the rest.
pub open spec fn issue_lines(failures: Seq<Seq<char>>) -> Seq<Seq<char>> {
    let shown = if failures.len() > 3 { failures.take(3) } else { failures };
    let lines = shown.map_values(|f: Seq<char>| "Horizons sync issue: "@ + f);
    if failures.len() > 3 {
        lines.push("Horizons sync issue: ... and "@ + decimal((failures.len() - 3) as nat) + " more"@)
    } else {
        lines
    }
}

/// The lines the side panel shows for the failures of the last round.
pub fn sync_issue_lines(failures: &Vec<String>) -> (lines: Vec<String>)
    ensures
        text_views(lines@) == issue_lines(text_views(failures@)),
{
    let ghost fv = text_views(failures@);
    let shown = if failures.len() > 3 { 3 } else { failures.len() };
    let mut lines: Vec<String> = Vec::new();
    let mut i: usize = 0;
    while i < shown
        invariant
            fv == text_views(failures@),
            shown <= failures.len(),
            shown == if failures.len() > 3 { 3 } else { failures.len() },
            i <= shown,
            text_views(lines@) =~= fv.take(i as int).map_values(|f: Seq<char>| "Horizons sync issue: "@ + f),
        decreases shown - i,
    {
        let mut line = "Horizons sync issue: ".to_string();
        line.append(failures[i].as_str());
        let ghost before = lines@;
        lines.push(line);
        assert(text_views(lines@) =~= text_views(before).push(line@));
        assert(fv.take((i + 1) as int) =~= fv.take(i as int).push(fv[i as int]));
        i = i + 1;
    }
    if failures.len() > 3 {
        assert(fv.take(3) =~= fv.take(shown as int));
        let mut line = "Horizons sync issue: ... and ".to_string();
        line.append(decimal_text((failures.len() - 3) as u64).as_str());
        line.append(" more");
        let ghost before = lines@;
        lines.push(line);
        assert(text_views(lines@) =~= text_views(before).push(line@));
    } else {
        assert(fv.take(shown as int) =~= fv);
    }
    lines
}

} // verus!
