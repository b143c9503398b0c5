//! The request pipelines: which store or ledger operation comes next,
//! and what the caller is told at the end.

use vstd::prelude::*;
use vstd::string::*;
use crate::auth::{issue_token, issued_at, TOKEN_LIFETIME_SECONDS};
use crate::db::{
    login_succeeds, reading_is_valid, user_login as password_matches, validate_reading,
    SensorReading, StoreError, UserForm,
};
use crate::http::{HttpResponse, LoginResponse};
use crate::solana::AnchorError;
use crate::time::{clock_reading, system_now, Timestamp};

verus! {

/// How far the ingestion of one reading has come.
#[derive(Clone, Copy, Debug, PartialEq, Eq, Structural)]
pub enum IngestStage {
    /// Nothing has been done yet.
    Received,
    /// The store was asked whether the sensor is registered.
    CheckingSensor,
    /// The store was asked to persist the reading.
    Persisting,
    /// The ledger client was asked to anchor the reading.
    Anchoring,
    /// The caller has its answer.
    Finished,
}

/// Why a reading is turned away.
#[derive(Clone, Copy, Debug, PartialEq, Eq, Structural)]
pub enum Rejection {
    InvalidCo2,
    UnknownSensor,
}

/// What the caller of an ingestion is told.
#[derive(Clone, Copy, Debug, PartialEq, Eq, Structural)]
pub enum IngestOutcome {
    Accepted,
    Rejected(Rejection),
    ServerError,
}

/// What the surroundings report back to the ingestion pipeline.
#[derive(Debug)]
pub enum IngestReply {
    /// The request has arrived.
    Start,
    /// Whether the sensor is registered.
    SensorChecked(Result<bool, StoreError>),
    /// Whether the reading was persisted.
    Persisted(Result<(), StoreError>),
    /// Whether the reading was anchored, and under which reference.
    Anchored(Result<String, AnchorError>),
}

/// What the ingestion pipeline asks of its surroundings next.
#[derive(Clone, Copy, Debug, PartialEq, Eq, Structural)]
pub enum IngestAction {
    /// Ask the store whether the sensor is registered.
    CheckSensor { sensor_id: i32 },
    /// Append the reading to the store.
    Persist(SensorReading),
    /// Anchor the reading on the ledger.
    Anchor(SensorReading),
    /// Answer the caller.
    Finish(IngestOutcome),
}

/// One step of the ingestion pipeline. Each stage waits for one kind of
/// reply; any other reply, and any failure of store or ledger, ends the
/// pipeline with a server error. Nothing undoes an earlier step.
pub open spec fn ingest_step(stage: IngestStage, reading: SensorReading, reply: IngestReply) -> (
    IngestStage,
    IngestAction,
) {
    match (stage, reply) {
        (IngestStage::Received, IngestReply::Start) => if reading_is_valid(reading) {
            (IngestStage::CheckingSensor, IngestAction::CheckSensor { sensor_id: reading.sensor_id })
        } else {
            (
                IngestStage::Finished,
                IngestAction::Finish(IngestOutcome::Rejected(Rejection::InvalidCo2)),
            )
        },
        (IngestStage::CheckingSensor, IngestReply::SensorChecked(Ok(true))) => (
            IngestStage::Persisting,
            IngestAction::Persist(reading),
        ),
        (IngestStage::CheckingSensor, IngestReply::SensorChecked(Ok(false))) => (
            IngestStage::Finished,
            IngestAction::Finish(IngestOutcome::Rejected(Rejection::UnknownSensor)),
        ),
        (IngestStage::Persisting, IngestReply::Persisted(Ok(_))) => (
            IngestStage::Anchoring,
            IngestAction::Anchor(reading),
        ),
        (IngestStage::Anchoring, IngestReply::Anchored(Ok(_))) => (
            IngestStage::Finished,
            IngestAction::Finish(IngestOutcome::Accepted),
        ),
        _ => (IngestStage::Finished, IngestAction::Finish(IngestOutcome::ServerError)),
    }
}

/// The actions that the pipeline asks for, one per reply, when it starts
/// at `stage` and is fed `replies` in order.
pub open spec fn ingest_run(stage: IngestStage, reading: SensorReading, replies: Seq<IngestReply>) -> Seq<
    IngestAction,
>
    decreases replies.len(),
{
    if replies.len() == 0 {
        seq![]
    } else {
        let next = ingest_step(stage, reading, replies[0]);
        seq![next.1] + ingest_run(next.0, reading, replies.drop_first())
    }
}

/// The rows of the store after the actions were carried out: each
/// `Persist` appends its reading, nothing else touches the rows.
pub open spec fn rows_after(rows: Seq<SensorReading>, actions: Seq<IngestAction>) -> Seq<
    SensorReading,
>
    decreases actions.len(),
{
    if actions.len() == 0 {
        rows
    } else {
        match actions[0] {
            IngestAction::Persist(reading) => rows_after(
                rows.push(reading),
                actions.drop_first(),
            ),
            _ => rows_after(rows, actions.drop_first()),
        }
    }
}

/// The readings handed to the ledger by the actions, in order.
pub open spec fn anchored_by(actions: Seq<IngestAction>) -> Seq<SensorReading>
    decreases actions.len(),
{
    if actions.len() == 0 {
        seq![]
    } else {
        match actions[0] {
            IngestAction::Anchor(reading) => seq![reading] + anchored_by(actions.drop_first()),
            _ => anchored_by(actions.drop_first()),
        }
    }
}

/// Advances the ingestion of a reading by one step.
pub fn ingest_reading(stage: IngestStage, reading: &SensorReading, reply: IngestReply) -> (next: (
    IngestStage,
    IngestAction,
))
    ensures
        next == ingest_step(stage, *reading, reply),
{
    match (stage, reply) {
        (IngestStage::Received, IngestReply::Start) => {
            match validate_reading(reading) {
                Ok(_) => (
                    IngestStage::CheckingSensor,
                    IngestAction::CheckSensor { sensor_id: reading.sensor_id },
                ),
                Err(_) => (
                    IngestStage::Finished,
                    IngestAction::Finish(IngestOutcome::Rejected(Rejection::InvalidCo2)),
                ),
            }
        },
        (IngestStage::CheckingSensor, IngestReply::SensorChecked(Ok(exists))) => {
            if exists {
                (IngestStage::Persisting, IngestAction::Persist(*reading))
            } else {
                (
                    IngestStage::Finished,
                    IngestAction::Finish(IngestOutcome::Rejected(Rejection::UnknownSensor)),
                )
            }
        },
        (IngestStage::Persisting, IngestReply::Persisted(Ok(_))) => (
            IngestStage::Anchoring,
            IngestAction::Anchor(*reading),
        ),
        (IngestStage::Anchoring, IngestReply::Anchored(Ok(_))) => (
            IngestStage::Finished,
            IngestAction::Finish(IngestOutcome::Accepted),
        ),
        _ => (IngestStage::Finished, IngestAction::Finish(IngestOutcome::ServerError)),
    }
}

/// The answer that an ingestion outcome is reported with.
pub fn ingest_response(outcome: IngestOutcome) -> (r: HttpResponse<()>)
    ensures
        match outcome {
            IngestOutcome::Accepted => r.holds(200, None, None),
            IngestOutcome::Rejected(Rejection::InvalidCo2) => r.fails_with(
                400,
                "Invalid CO2 value"@,
            ),
            IngestOutcome::Rejected(Rejection::UnknownSensor) => r.fails_with(
                400,
                "Sensor is not registered"@,
            ),
            IngestOutcome::ServerError => r.fails_with(500, "Internal server error"@),
        },
{
    match outcome {
        IngestOutcome::Accepted => HttpResponse::success(),
        IngestOutcome::Rejected(Rejection::InvalidCo2) => HttpResponse::bad_request(
            "Invalid CO2 value",
        ),
        IngestOutcome::Rejected(Rejection::UnknownSensor) => HttpResponse::bad_request(
            "Sensor is not registered",
        ),
        IngestOutcome::ServerError => HttpResponse::internal_error(),
    }
}

/// How far the read of a sensor's readings has come.
#[derive(Clone, Copy, Debug, PartialEq, Eq, Structural)]
pub enum FetchStage {
    /// Nothing has been done yet.
    Received,
    /// The store was asked whether the caller owns the sensor.
    CheckingOwnership,
    /// The store was asked for the readings.
    Querying,
    /// The caller has its answer.
    Finished,
}

/// What the surroundings report back to the read pipeline.
#[derive(Debug)]
pub enum FetchReply<T> {
    /// The request has arrived.
    Start,
    /// Whether the caller owns the sensor.
    Ownership(Result<bool, StoreError>),
    /// The readings in the window, oldest first.
    Rows(Result<Vec<T>, StoreError>),
}

/// What the caller of a read is told.
#[derive(Debug)]
pub enum FetchOutcome<T> {
    Rows(Vec<T>),
    Forbidden,
    ServerError,
}

/// What the read pipeline asks of its surroundings next.
#[derive(Debug)]
pub enum FetchAction<T> {
    /// Ask the store whether the caller owns the sensor.
    CheckOwnership,
    /// Ask the store for the sensor's readings in the window.
    Query,
    /// Answer the caller.
    Finish(FetchOutcome<T>),
}

/// One step of the read pipeline: the query is asked for only once the
/// store has confirmed that the caller owns the sensor.
pub open spec fn fetch_step<T>(stage: FetchStage, reply: FetchReply<T>) -> (FetchStage, FetchAction<T>) {
    match (stage, reply) {
        (FetchStage::Received, FetchReply::Start) => (
            FetchStage::CheckingOwnership,
            FetchAction::CheckOwnership,
        ),
        (FetchStage::CheckingOwnership, FetchReply::Ownership(Ok(true))) => (
            FetchStage::Querying,
            FetchAction::Query,
        ),
        (FetchStage::CheckingOwnership, FetchReply::Ownership(Ok(false))) => (
            FetchStage::Finished,
            FetchAction::Finish(FetchOutcome::Forbidden),
        ),
        (FetchStage::Querying, FetchReply::Rows(Ok(rows))) => (
            FetchStage::Finished,
            FetchAction::Finish(FetchOutcome::Rows(rows)),
        ),
        _ => (FetchStage::Finished, FetchAction::Finish(FetchOutcome::ServerError)),
    }
}

/// The actions that the read pipeline asks for, one per reply.
pub open spec fn fetch_run<T>(stage: FetchStage, replies: Seq<FetchReply<T>>) -> Seq<FetchAction<T>>
    decreases replies.len(),
{
    if replies.len() == 0 {
        seq![]
    } else {
        let next = fetch_step(stage, replies[0]);
        seq![next.1] + fetch_run(next.0, replies.drop_first())
    }
}

/// Advances the read of a sensor's readings by one step.
pub fn fetch_reading<T>(stage: FetchStage, reply: FetchReply<T>) -> (next: (
    FetchStage,
    FetchAction<T>,
))
    ensures
        next == fetch_step(stage, reply),
{
    match (stage, reply) {
        (FetchStage::Received, FetchReply::Start) => (
            FetchStage::CheckingOwnership,
            FetchAction::CheckOwnership,
        ),
        (FetchStage::CheckingOwnership, FetchReply::Ownership(Ok(ownership))) => {
            if ownership {
                (FetchStage::Querying, FetchAction::Query)
            } else {
                (FetchStage::Finished, FetchAction::Finish(FetchOutcome::Forbidden))
            }
        },
        (FetchStage::Querying, FetchReply::Rows(Ok(rows))) => (
            FetchStage::Finished,
            FetchAction::Finish(FetchOutcome::Rows(rows)),
        ),
        _ => (FetchStage::Finished, FetchAction::Finish(FetchOutcome::ServerError)),
    }
}

/// The answer that the outcome of a read is reported with.
pub fn fetch_response<T>(outcome: FetchOutcome<T>) -> (r: HttpResponse<Vec<T>>)
    ensures
        match outcome {
            FetchOutcome::Rows(rows) => r.holds(200, None, Some(rows)),
            FetchOutcome::Forbidden => r.fails_with(403, "Not authorized to access this sensor"@),
            FetchOutcome::ServerError => r.fails_with(500, "Internal server error"@),
        },
{
    match outcome {
        FetchOutcome::Rows(rows) => HttpResponse::success_data(rows),
        FetchOutcome::Forbidden => HttpResponse::forbidden("Not authorized to access this sensor"),
        FetchOutcome::ServerError => HttpResponse::internal_error(),
    }
}

/// Answers a request for the caller's sensors from what the store listed.
pub fn fetch_sensors<T>(listed: Result<Vec<T>, StoreError>) -> (r: HttpResponse<Vec<T>>)
    ensures
        match listed {
            Ok(sensors) => r.holds(200, None, Some(sensors)),
            Err(_) => r.fails_with(500, "Internal server error"@),
        },
{
    match listed {
        Ok(sensors) => HttpResponse::success_data(sensors),
        Err(_) => HttpResponse::internal_error(),
    }
}

/// Answers a registration from what the store said to the new row: a
/// taken username is a conflict, any other failure a server error.
pub fn user_registry(stored: Result<(), StoreError>) -> (r: HttpResponse<()>)
    ensures
        match stored {
            Ok(_) => r.holds(200, None, None),
            Err(e) => if e.unique_violation() {
                r.fails_with(409, "Username already taken"@)
            } else {
                r.fails_with(500, "Internal server error"@)
            },
        },
{
    match stored {
        Ok(_) => HttpResponse::success(),
        Err(e) => {
            if e.is_unique_violation() {
                HttpResponse::conflicts("Username already taken")
            } else {
                HttpResponse::internal_error()
            }
        },
    }
}

/// What a login is answered with at the instant `now`, given what the
/// store found under the username: on matching credentials the token
/// issued for the user at `now`, which is accepted at `now`;
/// `Invalid credentials` otherwise; a server error when the store failed.
pub open spec fn login_answer(
    r: HttpResponse<LoginResponse>,
    form: UserForm,
    lookup: Result<Option<String>, StoreError>,
    secret: Seq<char>,
    now: i64,
) -> bool {
    match lookup {
        Ok(stored) => if login_succeeds(form.password@, stored) {
            &&& r.status == 200
            &&& r.error_msg is None
            &&& r.body matches Some(login)
            &&& login.username@ == form.username@
            &&& login.role@ == "user"@
            &&& issued_at(login.token@, form.username@, secret, now)
        } else {
            r.fails_with(401, "Invalid credentials"@)
        },
        Err(_) => r.fails_with(500, "Internal server error"@),
    }
}

/// Answers a login at the instant `now`.
pub fn user_login_at(
    form: &UserForm,
    lookup: Result<Option<String>, StoreError>,
    secret: &str,
    now: i64,
) -> (r: HttpResponse<LoginResponse>)
    requires
        now <= i64::MAX - TOKEN_LIFETIME_SECONDS,
    ensures
        login_answer(r, *form, lookup, secret@, now),
{
    match lookup {
        Ok(stored) => {
            if password_matches(form, stored) {
                let token = issue_token(form.username.as_str(), secret, now);
                HttpResponse::success_data(LoginResponse::new(token, form))
            } else {
                HttpResponse::unauthorized("Invalid credentials")
            }
        },
        Err(_) => HttpResponse::internal_error(),
    }
}

/// Answers a login now, by the system clock.
pub fn user_login(form: &UserForm, lookup: Result<Option<String>, StoreError>, secret: &str) -> (r:
    HttpResponse<LoginResponse>)
    ensures
        exists|now: Timestamp|
            clock_reading(now) && #[trigger] login_answer(r, *form, lookup, secret@, now.secs),
{
    let now = system_now();
    let r = user_login_at(form, lookup, secret, now.secs);
    assert(login_answer(r, *form, lookup, secret@, now.secs));
    r
}

/// What a run of the ingestion pipeline can do to store and ledger,
/// whatever the replies: it appends the reading at most once, hands it
/// to the ledger at most once, and only after it was appended.
pub open spec fn run_is_orderly(
    reading: SensorReading,
    rows: Seq<SensorReading>,
    actions: Seq<IngestAction>,
) -> bool {
    let stored = rows_after(rows, actions);
    let anchored = anchored_by(actions);
    ||| stored == rows && anchored == Seq::<SensorReading>::empty()
    ||| stored == rows.push(reading) && anchored == Seq::<SensorReading>::empty()
    ||| stored == rows.push(reading) && anchored == seq![reading]
}

/// The effects of a run split into those of its first action and those
/// of the rest.
proof fn lemma_effects_unfold(first: IngestAction, rest: Seq<IngestAction>, rows: Seq<SensorReading>)
    ensures
        rows_after(rows, seq![first] + rest) == match first {
            IngestAction::Persist(reading) => rows_after(rows.push(reading), rest),
            _ => rows_after(rows, rest),
        },
        anchored_by(seq![first] + rest) == match first {
            IngestAction::Anchor(reading) => seq![reading] + anchored_by(rest),
            _ => anchored_by(rest),
        },
{
    let all = seq![first] + rest;
    assert(all[0] == first);
    assert(all.drop_first() =~= rest);
}

/// Once the caller has its answer, no reply makes the pipeline touch
/// store or ledger again.
pub proof fn lemma_finished_stays_finished(
    reading: SensorReading,
    replies: Seq<IngestReply>,
    rows: Seq<SensorReading>,
)
    ensures
        rows_after(rows, ingest_run(IngestStage::Finished, reading, replies)) == rows,
        anchored_by(ingest_run(IngestStage::Finished, reading, replies)) == Seq::<
            SensorReading,
        >::empty(),
    decreases replies.len(),
{
    if replies.len() > 0 {
        let next = ingest_step(IngestStage::Finished, reading, replies[0]);
        lemma_finished_stays_finished(reading, replies.drop_first(), rows);
        lemma_effects_unfold(
            next.1,
            ingest_run(IngestStage::Finished, reading, replies.drop_first()),
            rows,
        );
    }
}

/// From the stage at which the ledger was asked, nothing more is
/// appended or anchored.
proof fn lemma_after_anchoring(
    reading: SensorReading,
    replies: Seq<IngestReply>,
    rows: Seq<SensorReading>,
)
    ensures
        rows_after(rows, ingest_run(IngestStage::Anchoring, reading, replies)) == rows,
        anchored_by(ingest_run(IngestStage::Anchoring, reading, replies)) == Seq::<
            SensorReading,
        >::empty(),
{
    if replies.len() > 0 {
        let next = ingest_step(IngestStage::Anchoring, reading, replies[0]);
        lemma_finished_stays_finished(reading, replies.drop_first(), rows);
        lemma_effects_unfold(next.1, ingest_run(next.0, reading, replies.drop_first()), rows);
    }
}

/// From the stage at which the store was asked to persist, nothing more
/// is appended, and the reading is anchored at most once.
proof fn lemma_after_persisting(
    reading: SensorReading,
    replies: Seq<IngestReply>,
    rows: Seq<SensorReading>,
)
    ensures
        rows_after(rows, ingest_run(IngestStage::Persisting, reading, replies)) == rows,
        anchored_by(ingest_run(IngestStage::Persisting, reading, replies)) == Seq::<
            SensorReading,
        >::empty() || anchored_by(ingest_run(IngestStage::Persisting, reading, replies))
            == seq![reading],
{
    if replies.len() > 0 {
        let next = ingest_step(IngestStage::Persisting, reading, replies[0]);
        let rest = ingest_run(next.0, reading, replies.drop_first());
        if next.0 == IngestStage::Anchoring {
            lemma_after_anchoring(reading, replies.drop_first(), rows);
        } else {
            lemma_finished_stays_finished(reading, replies.drop_first(), rows);
        }
        lemma_effects_unfold(next.1, rest, rows);
        assert(seq![reading] + Seq::<SensorReading>::empty() =~= seq![reading]);
    }
}

/// From the stage at which the store was asked about the sensor, the
/// run is orderly.
proof fn lemma_after_checking(
    reading: SensorReading,
    replies: Seq<IngestReply>,
    rows: Seq<SensorReading>,
)
    ensures
        run_is_orderly(reading, rows, ingest_run(IngestStage::CheckingSensor, reading, replies)),
{
    if replies.len() > 0 {
        let next = ingest_step(IngestStage::CheckingSensor, reading, replies[0]);
        let rest = ingest_run(next.0, reading, replies.drop_first());
        if next.0 == IngestStage::Persisting {
            lemma_after_persisting(reading, replies.drop_first(), rows.push(reading));
        } else {
            lemma_finished_stays_finished(reading, replies.drop_first(), rows);
        }
        lemma_effects_unfold(next.1, rest, rows);
    }
}

/// Persist before anchor, and each at most once: whatever the replies,
/// a run of the pipeline leaves the store as it was or with the reading
/// appended once, and hands the reading to the ledger at most once and
/// only when it was appended.
pub proof fn lemma_ingestion_is_orderly(
    reading: SensorReading,
    replies: Seq<IngestReply>,
    rows: Seq<SensorReading>,
)
    ensures
        run_is_orderly(reading, rows, ingest_run(IngestStage::Received, reading, replies)),
{
    if replies.len() > 0 {
        let next = ingest_step(IngestStage::Received, reading, replies[0]);
        let rest = ingest_run(next.0, reading, replies.drop_first());
        if next.0 == IngestStage::CheckingSensor {
            lemma_after_checking(reading, replies.drop_first(), rows);
        } else {
            lemma_finished_stays_finished(reading, replies.drop_first(), rows);
        }
        lemma_effects_unfold(next.1, rest, rows);
    }
}

/// A reading with CO2 below zero is rejected as the caller's error, and
/// no run that starts with it writes to the store or hands anything to
/// the ledger.
pub proof fn lemma_negative_co2_is_rejected(
    reading: SensorReading,
    replies: Seq<IngestReply>,
    rows: Seq<SensorReading>,
)
    requires
        reading.co2.below_zero(),
    ensures
        ingest_step(IngestStage::Received, reading, IngestReply::Start) == (
            IngestStage::Finished,
            IngestAction::Finish(IngestOutcome::Rejected(Rejection::InvalidCo2)),
        ),
        rows_after(rows, ingest_run(IngestStage::Received, reading, replies)) == rows,
        anchored_by(ingest_run(IngestStage::Received, reading, replies)) == Seq::<
            SensorReading,
        >::empty(),
{
    if replies.len() > 0 {
        let next = ingest_step(IngestStage::Received, reading, replies[0]);
        assert(next.0 == IngestStage::Finished);
        lemma_finished_stays_finished(reading, replies.drop_first(), rows);
        lemma_effects_unfold(next.1, ingest_run(next.0, reading, replies.drop_first()), rows);
    }
}

/// The replies of a run in which the reading is valid, the sensor is
/// registered, the store persists the reading, and the ledger fails.
pub open spec fn anchor_failure(error: AnchorError, later: Seq<IngestReply>) -> Seq<IngestReply> {
    seq![
        IngestReply::Start,
        IngestReply::SensorChecked(Ok(true)),
        IngestReply::Persisted(Ok(())),
        IngestReply::Anchored(Err(error)),
    ] + later
}

/// When the store persists a valid reading and the ledger then fails,
/// the caller is told of a server error and the store holds exactly one
/// new row, the reading: nothing takes it back, whatever is reported later.
pub proof fn lemma_row_survives_anchor_failure(
    reading: SensorReading,
    error: AnchorError,
    later: Seq<IngestReply>,
    rows: Seq<SensorReading>,
)
    requires
        !reading.co2.below_zero(),
    ensures
        ingest_run(IngestStage::Received, reading, anchor_failure(error, later)).len() >= 4,
        ingest_run(IngestStage::Received, reading, anchor_failure(error, later))[3]
            == IngestAction::Finish(IngestOutcome::ServerError),
        rows_after(rows, ingest_run(IngestStage::Received, reading, anchor_failure(error, later)))
            == rows.push(reading),
        anchored_by(ingest_run(IngestStage::Received, reading, anchor_failure(error, later)))
            == seq![reading],
{
    let r0 = anchor_failure(error, later);
    let r1 = r0.drop_first();
    let r2 = r1.drop_first();
    let r3 = r2.drop_first();
    let r4 = r3.drop_first();
    assert(r4 =~= later);
    let t4 = ingest_run(IngestStage::Finished, reading, r4);
    let t3 = ingest_run(IngestStage::Anchoring, reading, r3);
    let t2 = ingest_run(IngestStage::Persisting, reading, r2);
    let t1 = ingest_run(IngestStage::CheckingSensor, reading, r1);
    let t0 = ingest_run(IngestStage::Received, reading, r0);
    let finish = IngestAction::Finish(IngestOutcome::ServerError);
    assert(r3[0] == IngestReply::Anchored(Err(error)));
    assert(t3 == seq![finish] + t4);
    assert(r2[0] == IngestReply::Persisted(Ok(())));
    assert(t2 == seq![IngestAction::Anchor(reading)] + t3);
    assert(r1[0] == IngestReply::SensorChecked(Ok(true)));
    assert(t1 == seq![IngestAction::Persist(reading)] + t2);
    assert(r0[0] == IngestReply::Start);
    assert(t0 == seq![IngestAction::CheckSensor { sensor_id: reading.sensor_id }] + t1);
    assert(t0[3] == finish);
    lemma_finished_stays_finished(reading, r4, rows.push(reading));
    lemma_effects_unfold(finish, t4, rows.push(reading));
    lemma_effects_unfold(IngestAction::Anchor(reading), t3, rows.push(reading));
    lemma_effects_unfold(IngestAction::Persist(reading), t2, rows);
    lemma_effects_unfold(IngestAction::CheckSensor { sensor_id: reading.sensor_id }, t1, rows);
    assert(seq![reading] + Seq::<SensorReading>::empty() =~= seq![reading]);
}

/// Whether an action hands out or asks for the readings of a sensor.
pub open spec fn reaches_readings<T>(action: FetchAction<T>) -> bool {
    action is Query || action matches FetchAction::Finish(FetchOutcome::Rows(_))
}

/// Once the caller has its answer, the read pipeline neither asks for
/// nor hands out readings.
pub proof fn lemma_fetch_finished_stays_finished<T>(replies: Seq<FetchReply<T>>, i: int)
    requires
        0 <= i < replies.len(),
    ensures
        fetch_run(FetchStage::Finished, replies).len() == replies.len(),
        !reaches_readings(fetch_run(FetchStage::Finished, replies)[i]),
    decreases replies.len(),
{
    lemma_fetch_run_length(FetchStage::Finished, replies);
    if i > 0 {
        lemma_fetch_finished_stays_finished(replies.drop_first(), i - 1);
    }
}

/// A run asks for one action per reply.
pub proof fn lemma_fetch_run_length<T>(stage: FetchStage, replies: Seq<FetchReply<T>>)
    ensures
        fetch_run(stage, replies).len() == replies.len(),
    decreases replies.len(),
{
    if replies.len() > 0 {
        lemma_fetch_run_length(fetch_step(stage, replies[0]).0, replies.drop_first());
    }
}

/// Deny by default: whatever the replies, the read pipeline asks for or
/// hands out readings only after the store has confirmed, as its reply
/// to the ownership check, that the caller owns the sensor.
pub proof fn lemma_readings_need_ownership<T>(replies: Seq<FetchReply<T>>, i: int)
    requires
        0 <= i < replies.len(),
        fetch_run(FetchStage::Received, replies).len() == replies.len(),
        reaches_readings(fetch_run(FetchStage::Received, replies)[i]),
    ensures
        i >= 1,
        replies[0] is Start,
        replies[1] matches FetchReply::Ownership(Ok(owns)) && owns,
{
    let s1 = fetch_step(FetchStage::Received, replies[0]);
    let r1 = replies.drop_first();
    lemma_fetch_run_length(s1.0, r1);
    if i == 0 {
    } else {
        if s1.0 == FetchStage::Finished {
            lemma_fetch_finished_stays_finished(r1, i - 1);
        } else {
            let s2 = fetch_step(FetchStage::CheckingOwnership, r1[0]);
            let r2 = r1.drop_first();
            lemma_fetch_run_length(s2.0, r2);
            if i == 1 {
            } else {
                if s2.0 == FetchStage::Finished {
                    lemma_fetch_finished_stays_finished(r2, i - 2);
                }
            }
        }
    }
}

/// A caller who does not own the sensor is answered `Forbidden`, and the
/// run neither asks the store for readings nor hands any out.
pub proof fn lemma_stranger_is_forbidden<T>(later: Seq<FetchReply<T>>, i: int)
    requires
        0 <= i < later.len() + 2,
    ensures
        fetch_run(
            FetchStage::Received,
            seq![FetchReply::<T>::Start, FetchReply::Ownership(Ok(false))] + later,
        ).len() == later.len() + 2,
        fetch_run(
            FetchStage::Received,
            seq![FetchReply::<T>::Start, FetchReply::Ownership(Ok(false))] + later,
        )[1] == FetchAction::<T>::Finish(FetchOutcome::Forbidden),
        !reaches_readings(
            fetch_run(
                FetchStage::Received,
                seq![FetchReply::<T>::Start, FetchReply::Ownership(Ok(false))] + later,
            )[i],
        ),
{
    let replies = seq![FetchReply::<T>::Start, FetchReply::Ownership(Ok(false))] + later;
    lemma_fetch_run_length(FetchStage::Received, replies);
    let r1 = replies.drop_first();
    let r2 = r1.drop_first();
    assert(r2 =~= later);
    assert(replies[0] is Start);
    assert(r1[0] == FetchReply::<T>::Ownership(Ok(false)));
    let t2 = fetch_run(FetchStage::Finished, r2);
    let t1 = fetch_run(FetchStage::CheckingOwnership, r1);
    let t0 = fetch_run(FetchStage::Received, replies);
    assert(t1 == seq![FetchAction::<T>::Finish(FetchOutcome::Forbidden)] + t2);
    assert(t0 == seq![FetchAction::<T>::CheckOwnership] + t1);
    if i >= 2 {
        lemma_fetch_finished_stays_finished(r2, i - 2);
    }
}

} // verus!
