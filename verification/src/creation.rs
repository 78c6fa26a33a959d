//! Writing a validated team down: one statement for the team, one for each
//! member, all in one transaction that is committed only if every statement
//! succeeded.

use vstd::prelude::*;
use vstd::string::StringExecFns;
use crate::defs::{IdentifiedAttendee, SimpleResponse, SimpleResponseCode, SportGender, Team};
use crate::text::{decimal_text, lemma_decimal_text_reads_back, number_text};

verus! {

/// What the transaction waits for.
#[derive(Clone, Copy, PartialEq, Eq, Structural, Debug)]
pub enum Phase {
    /// The statement that inserts the team.
    Team,
    /// The statement that inserts the member at `Creation::next`.
    Members,
    /// The commit.
    Commit,
    /// The rollback.
    Rollback,
    /// Nothing: the transaction is over.
    Done,
}

/// How a transaction ended.
#[derive(Clone, Copy, PartialEq, Eq, Structural, Debug)]
pub enum Outcome {
    /// The team is written down, under this id.
    Created(u64),
    RolledBack,
    RollbackFailed,
    CommitFailed,
}

/// What to do next.
#[derive(Clone, Copy, PartialEq, Eq, Structural, Debug)]
pub enum Statement {
    InsertTeam,
    InsertMember { team_id: u64, attendee_id: u32 },
    Commit,
    Rollback,
    Finish(Outcome),
}

/// The state of a transaction.
#[derive(Clone, Copy, PartialEq, Eq, Structural, Debug)]
pub struct Creation {
    pub phase: Phase,
    /// The id that the team was given, once it is inserted.
    pub team_id: u64,
    /// The index of the member whose statement is under way.
    pub next: usize,
    /// Whether a statement has failed.
    pub failed: bool,
}

/// The ids of a list of members, in order.
pub open spec fn member_ids(members: Seq<IdentifiedAttendee>) -> Seq<u32> {
    Seq::new(members.len(), |i: int| members[i].id)
}

/// The step once the members before `next` are dealt with: the next member, or
/// the end of the transaction, which is a commit only if nothing failed.
pub open spec fn after_inserts(ids: Seq<u32>, team_id: u64, next: int, failed: bool) -> (
    Creation,
    Statement,
) {
    if 0 <= next < ids.len() {
        (
            Creation { phase: Phase::Members, team_id, next: next as usize, failed },
            Statement::InsertMember { team_id, attendee_id: ids[next] },
        )
    } else if failed {
        (Creation { phase: Phase::Rollback, team_id, next: 0, failed }, Statement::Rollback)
    } else {
        (Creation { phase: Phase::Commit, team_id, next: 0, failed }, Statement::Commit)
    }
}

/// The step that follows the end of a statement, which either succeeded or not;
/// `insert_id` is the id that an insert reported. If the team cannot be
/// inserted, no member is; a member that cannot be inserted does not keep the
/// others from being tried.
pub open spec fn creation_step(ids: Seq<u32>, state: Creation, succeeded: bool, insert_id: u64) -> (
    Creation,
    Statement,
) {
    let over = Creation { phase: Phase::Done, team_id: state.team_id, next: 0, failed: state.failed };
    match state.phase {
        Phase::Team => if succeeded {
            after_inserts(ids, insert_id, 0, state.failed)
        } else {
            (
                Creation { phase: Phase::Rollback, team_id: state.team_id, next: 0, failed: true },
                Statement::Rollback,
            )
        },
        Phase::Members => after_inserts(
            ids,
            state.team_id,
            state.next + 1,
            state.failed || !succeeded,
        ),
        Phase::Commit => (
            over,
            Statement::Finish(
                if succeeded {
                    Outcome::Created(state.team_id)
                } else {
                    Outcome::CommitFailed
                },
            ),
        ),
        Phase::Rollback => (
            over,
            Statement::Finish(
                if succeeded {
                    Outcome::RolledBack
                } else {
                    Outcome::RollbackFailed
                },
            ),
        ),
        Phase::Done => (state, Statement::Finish(Outcome::RolledBack)),
    }
}

/// Starts the transaction: the team is inserted first.
pub fn begin() -> (start: (Creation, Statement))
    ensures
        start.0 == (Creation { phase: Phase::Team, team_id: 0, next: 0, failed: false }),
        start.1 == Statement::InsertTeam,
{
    (Creation { phase: Phase::Team, team_id: 0, next: 0, failed: false }, Statement::InsertTeam)
}

/// Takes the end of the statement that was under way and says what comes next.
pub fn advance(
    members: &Vec<IdentifiedAttendee>,
    state: Creation,
    succeeded: bool,
    insert_id: u64,
) -> (step: (Creation, Statement))
    requires
        state.phase != Phase::Done,
        state.phase == Phase::Members ==> state.next < members@.len(),
    ensures
        step == creation_step(member_ids(members@), state, succeeded, insert_id),
        step.0.phase == Phase::Members ==> step.0.next < members@.len(),
{
    let count = members.len();
    assert(state.phase == Phase::Members ==> state.next < count);
    match state.phase {
        Phase::Team => if succeeded {
            inserts_from(members, insert_id, 0, state.failed)
        } else {
            (
                Creation { phase: Phase::Rollback, team_id: state.team_id, next: 0, failed: true },
                Statement::Rollback,
            )
        },
        Phase::Members => inserts_from(
            members,
            state.team_id,
            state.next + 1,
            state.failed || !succeeded,
        ),
        Phase::Commit => (
            Creation { phase: Phase::Done, team_id: state.team_id, next: 0, failed: state.failed },
            Statement::Finish(
                if succeeded {
                    Outcome::Created(state.team_id)
                } else {
                    Outcome::CommitFailed
                },
            ),
        ),
        _ => (
            Creation { phase: Phase::Done, team_id: state.team_id, next: 0, failed: state.failed },
            Statement::Finish(
                if succeeded {
                    Outcome::RolledBack
                } else {
                    Outcome::RollbackFailed
                },
            ),
        ),
    }
}

/// The step once the members before `next` are dealt with.
fn inserts_from(members: &Vec<IdentifiedAttendee>, team_id: u64, next: usize, failed: bool) -> (step:
    (Creation, Statement))
    ensures
        step == after_inserts(member_ids(members@), team_id, next as int, failed),
        step.0.phase == Phase::Members ==> step.0.next < members@.len(),
{
    if next < members.len() {
        (
            Creation { phase: Phase::Members, team_id, next, failed },
            Statement::InsertMember { team_id, attendee_id: members[next].id },
        )
    } else if failed {
        (Creation { phase: Phase::Rollback, team_id, next: 0, failed }, Statement::Rollback)
    } else {
        (Creation { phase: Phase::Commit, team_id, next: 0, failed }, Statement::Commit)
    }
}

/// The statements that a transaction goes through from `state` as its
/// statements end as `events` say, each with whether it succeeded and the id
/// that it reported.
pub open spec fn statements(ids: Seq<u32>, state: Creation, events: Seq<(bool, u64)>) -> Seq<
    Statement,
>
    decreases events.len(),
{
    if events.len() == 0 || state.phase == Phase::Done {
        Seq::empty()
    } else {
        let step = creation_step(ids, state, events[0].0, events[0].1);
        seq![step.1] + statements(ids, step.0, events.drop_first())
    }
}

/// Whether a statement makes the team stay: the commit, or the report that
/// the team is created, whatever its id.
pub open spec fn keeps_team(statement: Statement) -> bool {
    statement == Statement::Commit || (statement matches Statement::Finish(outcome) && outcome
        is Created)
}

/// A statement that fails while the team or a member is inserted marks the
/// transaction as failed, and what follows it is no commit.
pub proof fn lemma_failure_is_kept(ids: Seq<u32>, state: Creation, succeeded: bool, insert_id: u64)
    requires
        state.phase == Phase::Team || state.phase == Phase::Members,
        state.failed || !succeeded,
    ensures
        creation_step(ids, state, succeeded, insert_id).0.failed,
        creation_step(ids, state, succeeded, insert_id).0.phase != Phase::Commit,
        !keeps_team(creation_step(ids, state, succeeded, insert_id).1),
{
}

/// Atomicity: once a statement has failed, the transaction is never committed
/// and never reported as created, however the statements after it end.
pub proof fn lemma_failed_never_commits(ids: Seq<u32>, state: Creation, events: Seq<(bool, u64)>)
    requires
        state.failed,
        state.phase != Phase::Commit,
    ensures
        forall|k: int|
            0 <= k < statements(ids, state, events).len() ==> !keeps_team(
                #[trigger] statements(ids, state, events)[k],
            ),
    decreases events.len(),
{
    if events.len() > 0 && state.phase != Phase::Done {
        let step = creation_step(ids, state, events[0].0, events[0].1);
        lemma_failed_never_commits(ids, step.0, events.drop_first());
        let rest = statements(ids, step.0, events.drop_first());
        assert(statements(ids, state, events) == seq![step.1] + rest);
        assert forall|k: int| 0 <= k < statements(ids, state, events).len() implies !keeps_team(
            #[trigger] statements(ids, state, events)[k],
        ) by {
            if k > 0 {
                assert(statements(ids, state, events)[k] == rest[k - 1]);
            }
        }
    }
}

/// Atomicity: if the insert of the team or of any member fails, the
/// transaction is never committed and never reported as created, however the
/// other statements end. Here `failure` counts the statements from `state` on
/// to the one that fails, which must still be an insert.
pub proof fn lemma_failed_insert_aborts(
    ids: Seq<u32>,
    state: Creation,
    events: Seq<(bool, u64)>,
    failure: int,
)
    requires
        ids.len() <= usize::MAX,
        0 <= failure < events.len(),
        !events[failure].0,
        match state.phase {
            Phase::Team => failure <= ids.len(),
            Phase::Members => state.next + failure < ids.len(),
            _ => false,
        },
    ensures
        forall|k: int|
            0 <= k < statements(ids, state, events).len() ==> !keeps_team(
                #[trigger] statements(ids, state, events)[k],
            ),
    decreases failure,
{
    let step = creation_step(ids, state, events[0].0, events[0].1);
    let rest = events.drop_first();
    let tail = statements(ids, step.0, rest);
    let run = statements(ids, state, events);
    assert(run == seq![step.1] + tail);
    if state.failed || !events[0].0 {
        lemma_failure_is_kept(ids, state, events[0].0, events[0].1);
        lemma_failed_never_commits(ids, step.0, rest);
    } else {
        assert(failure > 0);
        assert(rest[failure - 1] == events[failure]);
        lemma_failed_insert_aborts(ids, step.0, rest, failure - 1);
    }
    assert forall|k: int| 0 <= k < run.len() implies !keeps_team(#[trigger] run[k]) by {
        if k > 0 {
            assert(run[k] == tail[k - 1]);
        }
    }
}

/// Whether every statement of a run succeeds.
pub open spec fn all_succeed(events: Seq<(bool, u64)>) -> bool {
    forall|i: int| 0 <= i < events.len() ==> (#[trigger] events[i]).0
}

/// While members are inserted and nothing has failed, a run in which every
/// statement succeeds inserts each of the members that are left, in order and
/// under the id of the team, then commits, and ends with the team reported as
/// created under that id.
pub proof fn lemma_success_run(ids: Seq<u32>, state: Creation, events: Seq<(bool, u64)>)
    requires
        ids.len() <= usize::MAX,
        state.phase == Phase::Members,
        !state.failed,
        0 <= state.next < ids.len(),
        all_succeed(events),
        events.len() == ids.len() - state.next + 1,
    ensures
        statements(ids, state, events).len() == events.len(),
        forall|k: int|
            0 <= k < ids.len() - state.next - 1 ==> #[trigger] statements(ids, state, events)[k]
                == (Statement::InsertMember {
                team_id: state.team_id,
                attendee_id: ids[state.next + 1 + k],
            }),
        statements(ids, state, events)[ids.len() - state.next - 1] == Statement::Commit,
        statements(ids, state, events)[ids.len() - state.next] == Statement::Finish(
            Outcome::Created(state.team_id),
        ),
    decreases ids.len() - state.next,
{
    let step = creation_step(ids, state, events[0].0, events[0].1);
    let rest = events.drop_first();
    let tail = statements(ids, step.0, rest);
    let run = statements(ids, state, events);
    assert(events[0].0);
    assert(run == seq![step.1] + tail);
    assert(all_succeed(rest)) by {
        assert forall|i: int| 0 <= i < rest.len() implies (#[trigger] rest[i]).0 by {
            assert(rest[i] == events[i + 1]);
        }
    }
    if state.next + 1 < ids.len() {
        lemma_success_run(ids, step.0, rest);
        assert forall|k: int| 0 <= k < ids.len() - state.next - 1 implies #[trigger] run[k] == (
        Statement::InsertMember { team_id: state.team_id, attendee_id: ids[state.next + 1 + k] }) by {
            if k > 0 {
                assert(run[k] == tail[k - 1]);
            }
        }
        assert(run[ids.len() - state.next - 1] == tail[ids.len() - state.next - 2]);
        assert(run[ids.len() - state.next] == tail[ids.len() - state.next - 1]);
    } else {
        assert(step.0.phase == Phase::Commit);
        assert(rest.len() == 1);
        assert(rest[0] == events[1]);
        let last = creation_step(ids, step.0, rest[0].0, rest[0].1);
        assert(last.1 == Statement::Finish(Outcome::Created(state.team_id)));
        assert(rest.drop_first().len() == 0);
        assert(statements(ids, last.0, rest.drop_first()) =~= Seq::<Statement>::empty());
        assert(tail =~= seq![last.1]);
        assert(run =~= seq![
            Statement::Commit,
            Statement::Finish(Outcome::Created(state.team_id)),
        ]);
    }
}

/// A transaction in which every statement succeeds: after the team, each
/// member is inserted once, in order and under the id that the insert of the
/// team reported; then the transaction is committed and the team reported as
/// created under that id.
pub proof fn lemma_team_is_created(ids: Seq<u32>, events: Seq<(bool, u64)>)
    requires
        0 < ids.len() <= usize::MAX,
        all_succeed(events),
        events.len() == ids.len() + 2,
    ensures
        ({
            let start = Creation { phase: Phase::Team, team_id: 0, next: 0, failed: false };
            let run = statements(ids, start, events);
            &&& run.len() == ids.len() + 2
            &&& forall|k: int|
                0 <= k < ids.len() ==> #[trigger] run[k] == (Statement::InsertMember {
                    team_id: events[0].1,
                    attendee_id: ids[k],
                })
            &&& run[ids.len() as int] == Statement::Commit
            &&& run[ids.len() as int + 1] == Statement::Finish(Outcome::Created(events[0].1))
        }),
{
    let start = Creation { phase: Phase::Team, team_id: 0, next: 0, failed: false };
    let run = statements(ids, start, events);
    let step = creation_step(ids, start, events[0].0, events[0].1);
    let rest = events.drop_first();
    let tail = statements(ids, step.0, rest);
    assert(events[0].0);
    assert(run == seq![step.1] + tail);
    assert(all_succeed(rest)) by {
        assert forall|i: int| 0 <= i < rest.len() implies (#[trigger] rest[i]).0 by {
            assert(rest[i] == events[i + 1]);
        }
    }
    lemma_success_run(ids, step.0, rest);
    assert forall|k: int| 0 <= k < ids.len() implies #[trigger] run[k] == (Statement::InsertMember {
        team_id: events[0].1,
        attendee_id: ids[k],
    }) by {
        if k > 0 {
            assert(run[k] == tail[k - 1]);
        }
    }
    assert(run[ids.len() as int] == tail[ids.len() - 1]);
    assert(run[ids.len() as int + 1] == tail[ids.len() as int]);
}

/// The label under which a team's gender policy is stored.
pub open spec fn gender_label(gender: SportGender) -> Seq<char> {
    match gender {
        SportGender::M => "Male"@,
        SportGender::F => "Female"@,
        SportGender::Mixed => "Mixed"@,
    }
}

/// The label under which a team's gender policy is stored.
pub fn gender_name(gender: SportGender) -> (label: &'static str)
    ensures
        label@ == gender_label(gender),
{
    match gender {
        SportGender::M => "Male",
        SportGender::F => "Female",
        SportGender::Mixed => "Mixed",
    }
}

/// The row to insert for a team.
#[derive(Clone, Debug)]
pub struct TeamRow {
    pub school_id: u32,
    pub name: String,
    pub captain_id: u32,
    pub sport: String,
    pub gender: String,
}

/// The row to insert for a team: the captain is the first member.
pub fn team_row(team: &Team, members: &Vec<IdentifiedAttendee>) -> (row: TeamRow)
    requires
        members@.len() > 0,
    ensures
        row.school_id == team.school_id,
        row.name@ == team.name@,
        row.captain_id == members@[0].id,
        row.sport@ == team.sport@,
        row.gender@ == gender_label(team.gender),
{
    TeamRow {
        school_id: team.school_id,
        name: team.name.clone(),
        captain_id: members[0].id,
        sport: team.sport.clone(),
        gender: String::from_str(gender_name(team.gender)),
    }
}

/// The message that reports how a transaction ended: for a team that is
/// created, the id that it was given; `words` are those of the failure, where
/// the commit or the rollback failed.
pub open spec fn outcome_message(outcome: Outcome, words: Seq<char>) -> Seq<char> {
    match outcome {
        Outcome::Created(team_id) => "Team created: "@ + decimal_text(team_id),
        Outcome::RolledBack => "DB error, rolling back"@,
        Outcome::RollbackFailed => "Can't roll back : "@ + words,
        Outcome::CommitFailed => "DB commit error : "@ + words,
    }
}

/// The answer that reports how a transaction ended: a success only where the
/// team was created, and then with the id of the team.
pub fn creation_response(outcome: Outcome, words: &str) -> (response: SimpleResponse)
    ensures
        response.message@ == outcome_message(outcome, words@),
        response.code == (if outcome is Created {
            SimpleResponseCode::Success
        } else {
            SimpleResponseCode::ServerError
        }),
{
    match outcome {
        Outcome::Created(team_id) => {
            let mut message = String::from_str("Team created: ");
            message.append(number_text(team_id).as_str());
            SimpleResponse { message, code: SimpleResponseCode::Success }
        },
        Outcome::RolledBack => SimpleResponse {
            message: String::from_str("DB error, rolling back"),
            code: SimpleResponseCode::ServerError,
        },
        Outcome::RollbackFailed => {
            let mut message = String::from_str("Can't roll back : ");
            message.append(words);
            SimpleResponse { message, code: SimpleResponseCode::ServerError }
        },
        Outcome::CommitFailed => {
            let mut message = String::from_str("DB commit error : ");
            message.append(words);
            SimpleResponse { message, code: SimpleResponseCode::ServerError }
        },
    }
}

/// Two teams that are created under different ids are not answered alike.
pub proof fn lemma_created_team_is_named(first: u64, second: u64, words: Seq<char>)
    requires
        first != second,
    ensures
        outcome_message(Outcome::Created(first), words) != outcome_message(
            Outcome::Created(second),
            words,
        ),
{
    lemma_decimal_text_reads_back(first);
    lemma_decimal_text_reads_back(second);
    let a = decimal_text(first);
    let b = decimal_text(second);
    if "Team created: "@ + a == "Team created: "@ + b {
        let n = "Team created: "@.len() as int;
        assert(a =~= ("Team created: "@ + a).subrange(n, n + a.len()));
        assert(b =~= ("Team created: "@ + b).subrange(n, n + b.len()));
        assert(a.len() == b.len());
        assert(a == b);
    }
}

} // verus!
