//! Validating a proposed team.
//!
//! A team is examined member by member, in the order of its references: each
//! reference is resolved, the attendee is held against the eligibility rules,
//! and the first member that fails ends the validation. An examination either
//! is over or waits for the reply to a question; `continue_team` takes the
//! reply and says how the examination goes on.

use vstd::prelude::*;
use vstd::string::StringExecFns;
use crate::attendee::{
    complete_attendee, resolution_after, resolution_start, resolution_step, resolved,
    retrieve_attendee, Awaiting, AwaitingView, Question, QuestionView, Reply, ReplyView,
    Resolution, ResolutionView,
};
use crate::checks::{
    athlete_ticket_ids, athlete_tickets, attendee_status, status_before_team, validate_attendee,
    Validation,
};
use crate::config::{Config, SectionView};
use crate::defs::{
    attendee_views, AttendeeStatus, AttendeeView, IdentifiedAttendee, Sport, SportView, Team,
    TeamMember,
};
use crate::text::{occurs_before, seen_before, text_views};

verus! {

/// Whether some text stands twice in the list.
pub open spec fn has_duplicates(refs: Seq<Seq<char>>) -> bool {
    exists|i: int| 0 <= i < refs.len() && #[trigger] seen_before(refs, i)
}

/// Whether every member comes from the school of the first.
pub open spec fn same_school(members: Seq<AttendeeView>) -> bool {
    forall|i: int| 0 <= i < members.len() ==> (#[trigger] members[i]).school_id == members[0].school_id
}

/// The name of a verdict.
pub open spec fn status_label(status: AttendeeStatus) -> Seq<char> {
    match status {
        AttendeeStatus::Eligible => "Ok"@,
        AttendeeStatus::InvalidSport => "InvalidSport"@,
        AttendeeStatus::InvalidGender => "InvalidGender"@,
        AttendeeStatus::SportNotRegistered => "SportNotRegistered"@,
        AttendeeStatus::AlreadyInATeam => "AlreadyInATeam"@,
        AttendeeStatus::NotAnAthlete => "NotAnAthlete"@,
    }
}

/// The name of a verdict.
pub fn status_name(status: AttendeeStatus) -> (name: &'static str)
    ensures
        name@ == status_label(status),
{
    match status {
        AttendeeStatus::Eligible => "Ok",
        AttendeeStatus::InvalidSport => "InvalidSport",
        AttendeeStatus::InvalidGender => "InvalidGender",
        AttendeeStatus::SportNotRegistered => "SportNotRegistered",
        AttendeeStatus::AlreadyInATeam => "AlreadyInATeam",
        AttendeeStatus::NotAnAthlete => "NotAnAthlete",
    }
}

/// The message for a member whose reference could not be resolved.
pub open spec fn unresolved_message(reference: Seq<char>) -> Seq<char> {
    "Order reference '"@ + reference + "' is invalid"@
}

/// The message for a member who is not eligible.
pub open spec fn refused_message(
    first_name: Seq<char>,
    last_name: Seq<char>,
    reference: Seq<char>,
    status: AttendeeStatus,
) -> Seq<char> {
    first_name + " "@ + last_name + " ("@ + reference + ") causes a validation error, code:"@
        + status_label(status)
}

/// The message for a team in which a reference stands twice.
pub open spec fn repeated_message() -> Seq<char> {
    "The same order reference was found at least twice in payload"@
}

/// The rule on schools, in words.
pub open spec fn schools_message() -> Seq<char> {
    "Members of a team should all come from the same school"@
}

/// The message for a team whose members come from different schools: the
/// rule, and the reference of the member who breaks it.
pub open spec fn mismatch_message(reference: Seq<char>) -> Seq<char> {
    schools_message() + ", but '"@ + reference + "' comes from another school than the captain"@
}

/// The index of the first member at or after `from` who comes from another
/// school than the first member, the captain.
pub open spec fn stranger_from(members: Seq<AttendeeView>, from: int) -> Option<int>
    decreases members.len() - from,
{
    if from < 0 || from >= members.len() {
        None
    } else if members[from].school_id != members[0].school_id {
        Some(from)
    } else {
        stranger_from(members, from + 1)
    }
}

/// What `stranger_from` finds is the first member from another school; it
/// finds none where there is none.
pub proof fn lemma_first_stranger(members: Seq<AttendeeView>, from: int)
    requires
        0 <= from,
    ensures
        match stranger_from(members, from) {
            Some(i) => from <= i < members.len() && members[i].school_id != members[0].school_id
                && forall|j: int|
                from <= j < i ==> (#[trigger] members[j]).school_id == members[0].school_id,
            None => forall|j: int|
                from <= j < members.len() ==> (#[trigger] members[j]).school_id
                    == members[0].school_id,
        },
    decreases members.len() - from,
{
    if from < members.len() && members[from].school_id == members[0].school_id {
        lemma_first_stranger(members, from + 1);
    }
}

/// A question of the examination of a team.
#[derive(Clone, Debug)]
pub enum TeamQuestion {
    /// A question of the resolution of the member at hand.
    Resolution(Question),
    /// Is this attendee in a team of this sport already?
    Membership { attendee_id: u32, sport: String },
    /// What are the first name and the last name of this attendee, and the
    /// name of their school?
    Name { attendee_id: u32, school_id: u32 },
}

/// What a `TeamQuestion` is.
pub ghost enum TeamQuestionView {
    Resolution(QuestionView),
    Membership { attendee_id: u32, sport: Seq<char> },
    Name { attendee_id: u32, school_id: u32 },
}

impl View for TeamQuestion {
    type V = TeamQuestionView;

    open spec fn view(&self) -> TeamQuestionView {
        match self {
            TeamQuestion::Resolution(question) => TeamQuestionView::Resolution(question@),
            TeamQuestion::Membership { attendee_id, sport } => TeamQuestionView::Membership {
                attendee_id: *attendee_id,
                sport: sport@,
            },
            TeamQuestion::Name { attendee_id, school_id } => TeamQuestionView::Name {
                attendee_id: *attendee_id,
                school_id: *school_id,
            },
        }
    }
}

/// The reply to a question of the examination of a team.
#[derive(Clone, Debug)]
pub enum TeamReply {
    /// The reply to a question of the resolution.
    Resolution(Reply),
    /// Whether the attendee is in a team of the sport.
    Membership(bool),
    /// The names asked for.
    Name { first_name: String, last_name: String, school: String },
}

/// What a `TeamReply` is.
pub ghost enum TeamReplyView {
    Resolution(ReplyView),
    Membership(bool),
    Name { first_name: Seq<char>, last_name: Seq<char>, school: Seq<char> },
}

impl View for TeamReply {
    type V = TeamReplyView;

    open spec fn view(&self) -> TeamReplyView {
        match self {
            TeamReply::Resolution(reply) => TeamReplyView::Resolution(reply@),
            TeamReply::Membership(in_team) => TeamReplyView::Membership(*in_team),
            TeamReply::Name { first_name, last_name, school } => TeamReplyView::Name {
                first_name: first_name@,
                last_name: last_name@,
                school: school@,
            },
        }
    }
}

/// What the examination of the member at hand waits for.
#[derive(Clone, Debug)]
pub enum Stage {
    /// A reply to the resolution of the member's reference.
    Resolving(Awaiting),
    /// Whether the member, eligible so far, is in a team already.
    Membership(IdentifiedAttendee),
    /// The name of the member, who is refused with this verdict.
    Naming(IdentifiedAttendee, AttendeeStatus),
}

/// What a `Stage` is.
pub ghost enum StageView {
    Resolving(AwaitingView),
    Membership(AttendeeView),
    Naming(AttendeeView, AttendeeStatus),
}

impl View for Stage {
    type V = StageView;

    open spec fn view(&self) -> StageView {
        match self {
            Stage::Resolving(awaiting) => StageView::Resolving(awaiting@),
            Stage::Membership(candidate) => StageView::Membership(candidate@),
            Stage::Naming(candidate, status) => StageView::Naming(candidate@, *status),
        }
    }
}

/// An examination under way: the members admitted so far, in the order of the
/// team's references, and what the examination of the next one waits for.
#[derive(Clone, Debug)]
pub struct Examination {
    pub members: Vec<IdentifiedAttendee>,
    pub stage: Stage,
}

/// What an `Examination` is.
pub ghost struct ExaminationView {
    pub members: Seq<AttendeeView>,
    pub stage: StageView,
}

impl View for Examination {
    type V = ExaminationView;

    open spec fn view(&self) -> ExaminationView {
        ExaminationView { members: attendee_views(self.members@), stage: self.stage@ }
    }
}

/// Where the examination of a team stands.
#[derive(Debug)]
pub enum TeamStep {
    /// It waits for the reply to a question.
    Ask(Examination, TeamQuestion),
    /// It is over: the members, one for each reference and in the order of the
    /// references, or the message that says why the team is refused.
    Done(Result<Vec<IdentifiedAttendee>, String>),
    /// The ticketing data cannot be trusted for the member at hand; with the
    /// diagnostic of the resolution.
    Fatal(String),
    /// It cannot go on: the configuration cannot be read, or the reply is not
    /// of the kind awaited.
    Aborted,
}

/// What a `TeamStep` is.
pub ghost enum TeamStepView {
    Ask(ExaminationView, TeamQuestionView),
    Done(Result<Seq<AttendeeView>, Seq<char>>),
    Fatal(Seq<char>),
    Aborted,
}

impl View for TeamStep {
    type V = TeamStepView;

    open spec fn view(&self) -> TeamStepView {
        match self {
            TeamStep::Ask(state, question) => TeamStepView::Ask(state@, question@),
            TeamStep::Done(Ok(members)) => TeamStepView::Done(Ok(attendee_views(members@))),
            TeamStep::Done(Err(message)) => TeamStepView::Done(Err(message@)),
            TeamStep::Fatal(diagnostic) => TeamStepView::Fatal(diagnostic@),
            TeamStep::Aborted => TeamStepView::Aborted,
        }
    }
}

/// How an examination ends once every member is admitted: where the sport does
/// not let schools mix, every member must come from the school of the first,
/// the captain, and the first who does not is named by their reference. A team
/// without a member passes, as no member differs.
pub open spec fn team_settled(
    refs: Seq<Seq<char>>,
    sport: SportView,
    members: Seq<AttendeeView>,
) -> TeamStepView {
    if sport.school_mix_allowed {
        TeamStepView::Done(Ok(members))
    } else {
        match stranger_from(members, 0) {
            None => TeamStepView::Done(Ok(members)),
            Some(i) => TeamStepView::Done(Err(mismatch_message(refs[i]))),
        }
    }
}

/// How an examination goes on with a member who is resolved: the rules that
/// need no knowledge of the teams are applied; where all of them hold, the
/// teams are asked for, and else the name of the member, to refuse them by.
pub open spec fn team_candidate(
    config: Seq<SectionView>,
    sport: SportView,
    members: Seq<AttendeeView>,
    candidate: AttendeeView,
) -> TeamStepView {
    match athlete_ticket_ids(config) {
        None => TeamStepView::Aborted,
        Some(tickets) => {
            let status = status_before_team(tickets, candidate, sport);
            if status == AttendeeStatus::Eligible {
                TeamStepView::Ask(
                    ExaminationView { members, stage: StageView::Membership(candidate) },
                    TeamQuestionView::Membership { attendee_id: candidate.id, sport: sport.name },
                )
            } else {
                TeamStepView::Ask(
                    ExaminationView { members, stage: StageView::Naming(candidate, status) },
                    TeamQuestionView::Name {
                        attendee_id: candidate.id,
                        school_id: candidate.school_id,
                    },
                )
            }
        },
    }
}

/// How an examination goes on with the resolution of the member at hand: a
/// reference that resolves to no attendee ends it with the user's error; a
/// resolution that ends as fatal is passed on as such.
pub open spec fn team_resolution(
    config: Seq<SectionView>,
    refs: Seq<Seq<char>>,
    sport: SportView,
    members: Seq<AttendeeView>,
    resolution: ResolutionView,
) -> TeamStepView {
    match resolution {
        ResolutionView::Ask(awaiting, question) => TeamStepView::Ask(
            ExaminationView { members, stage: StageView::Resolving(awaiting) },
            TeamQuestionView::Resolution(question),
        ),
        ResolutionView::Done(Ok(candidate)) => team_candidate(config, sport, members, candidate),
        ResolutionView::Done(Err(_)) => TeamStepView::Done(
            Err(unresolved_message(refs[members.len() as int])),
        ),
        ResolutionView::Fatal(diagnostic) => TeamStepView::Fatal(diagnostic),
        ResolutionView::Unreadable => TeamStepView::Aborted,
    }
}

/// How an examination goes on once `members` are admitted: with the next
/// reference, or, when none is left, with the rule on schools.
pub open spec fn team_next(
    config: Seq<SectionView>,
    refs: Seq<Seq<char>>,
    sport: SportView,
    members: Seq<AttendeeView>,
) -> TeamStepView {
    if members.len() < refs.len() {
        team_resolution(
            config,
            refs,
            sport,
            members,
            resolution_start(config, refs[members.len() as int]),
        )
    } else {
        team_settled(refs, sport, members)
    }
}

/// How the examination of a team starts: a team in which a reference stands
/// twice is refused at once, before any member is resolved.
pub open spec fn team_start(
    config: Seq<SectionView>,
    refs: Seq<Seq<char>>,
    sport: SportView,
) -> TeamStepView {
    if has_duplicates(refs) {
        TeamStepView::Done(Err(repeated_message()))
    } else {
        team_next(config, refs, sport, Seq::empty())
    }
}

/// How an examination that waits goes on with a reply. During the resolution
/// of a member, a reply of another kind counts as a failure of the question.
pub open spec fn team_step(
    config: Seq<SectionView>,
    refs: Seq<Seq<char>>,
    sport: SportView,
    state: ExaminationView,
    reply: TeamReplyView,
) -> TeamStepView {
    if state.members.len() >= refs.len() {
        TeamStepView::Aborted
    } else {
        match state.stage {
            StageView::Resolving(awaiting) => team_resolution(
                config,
                refs,
                sport,
                state.members,
                resolution_step(
                    config,
                    awaiting,
                    match reply {
                        TeamReplyView::Resolution(inner) => inner,
                        _ => ReplyView::Failed(Seq::empty()),
                    },
                ),
            ),
            StageView::Membership(candidate) => match reply {
                TeamReplyView::Membership(in_team) => if in_team {
                    TeamStepView::Ask(
                        ExaminationView {
                            members: state.members,
                            stage: StageView::Naming(candidate, AttendeeStatus::AlreadyInATeam),
                        },
                        TeamQuestionView::Name {
                            attendee_id: candidate.id,
                            school_id: candidate.school_id,
                        },
                    )
                } else {
                    team_next(config, refs, sport, state.members.push(candidate))
                },
                _ => TeamStepView::Aborted,
            },
            StageView::Naming(candidate, status) => match reply {
                TeamReplyView::Name { first_name, last_name, school } => TeamStepView::Done(
                    Err(
                        refused_message(
                            first_name,
                            last_name,
                            refs[state.members.len() as int],
                            status,
                        ),
                    ),
                ),
                _ => TeamStepView::Aborted,
            },
        }
    }
}

/// Ends an examination in which every member is admitted.
fn settle(team: &Team, sport: &Sport, members: Vec<IdentifiedAttendee>) -> (step: TeamStep)
    requires
        members@.len() == team.refs@.len(),
    ensures
        step@ == team_settled(text_views(team.refs@), sport@, attendee_views(members@)),
{
    if sport.school_mix_allowed || members.len() == 0 {
        return TeamStep::Done(Ok(members));
    }
    let captain_school = members[0].school_id;
    let mut i: usize = 0;
    while i < members.len()
        invariant
            i <= members.len(),
            !sport.school_mix_allowed,
            members@.len() > 0,
            members@.len() == team.refs@.len(),
            captain_school == attendee_views(members@)[0].school_id,
            stranger_from(attendee_views(members@), 0) == stranger_from(
                attendee_views(members@),
                i as int,
            ),
        decreases members.len() - i,
    {
        if captain_school != members[i].school_id {
            assert(attendee_views(members@)[i as int].school_id != captain_school);
            let mut message = String::from_str(
                "Members of a team should all come from the same school",
            );
            message.append(", but '");
            message.append(team.refs[i].as_str());
            message.append("' comes from another school than the captain");
            return TeamStep::Done(Err(message));
        }
        assert(attendee_views(members@)[i as int].school_id == captain_school);
        i += 1;
    }
    TeamStep::Done(Ok(members))
}

/// Goes on with a member who is resolved.
fn examine(
    config: &Config,
    sport: &Sport,
    members: Vec<IdentifiedAttendee>,
    candidate: IdentifiedAttendee,
) -> (step: TeamStep)
    ensures
        step@ == team_candidate(config@, sport@, attendee_views(members@), candidate@),
{
    match athlete_tickets(config) {
        None => TeamStep::Aborted,
        Some(tickets) => match validate_attendee(&tickets, &candidate, sport) {
            Validation::Pending(query) => TeamStep::Ask(
                Examination { members, stage: Stage::Membership(candidate) },
                TeamQuestion::Membership { attendee_id: query.attendee_id, sport: query.sport },
            ),
            Validation::Decided(status) => {
                let question = TeamQuestion::Name {
                    attendee_id: candidate.id,
                    school_id: candidate.school_id,
                };
                TeamStep::Ask(
                    Examination { members, stage: Stage::Naming(candidate, status) },
                    question,
                )
            },
        },
    }
}

/// Goes on with the resolution of the member at hand.
fn resolving(
    config: &Config,
    team: &Team,
    sport: &Sport,
    members: Vec<IdentifiedAttendee>,
    resolution: Resolution,
) -> (step: TeamStep)
    requires
        members@.len() < team.refs@.len(),
    ensures
        step@ == team_resolution(
            config@,
            text_views(team.refs@),
            sport@,
            attendee_views(members@),
            resolution@,
        ),
{
    match resolution {
        Resolution::Ask(awaiting, question) => TeamStep::Ask(
            Examination { members, stage: Stage::Resolving(awaiting) },
            TeamQuestion::Resolution(question),
        ),
        Resolution::Done(Ok(candidate)) => examine(config, sport, members, candidate),
        Resolution::Done(Err(_)) => {
            let mut message = String::from_str("Order reference '");
            message.append(team.refs[members.len()].as_str());
            message.append("' is invalid");
            TeamStep::Done(Err(message))
        },
        Resolution::Fatal(diagnostic) => TeamStep::Fatal(diagnostic),
        Resolution::Unreadable => TeamStep::Aborted,
    }
}

/// Goes on once `members` are admitted.
fn next_member(
    config: &Config,
    team: &Team,
    sport: &Sport,
    members: Vec<IdentifiedAttendee>,
) -> (step: TeamStep)
    requires
        members@.len() <= team.refs@.len(),
    ensures
        step@ == team_next(config@, text_views(team.refs@), sport@, attendee_views(members@)),
{
    if members.len() < team.refs.len() {
        let start = retrieve_attendee(config, team.refs[members.len()].as_str());
        resolving(config, team, sport, members, start)
    } else {
        settle(team, sport, members)
    }
}

/// Starts the examination of a team.
pub fn validate_team(config: &Config, team: &Team, sport: &Sport) -> (step: TeamStep)
    ensures
        step@ == team_start(config@, text_views(team.refs@), sport@),
{
    let mut i: usize = 0;
    while i < team.refs.len()
        invariant
            i <= team.refs.len(),
            forall|j: int| 0 <= j < i ==> !#[trigger] seen_before(text_views(team.refs@), j),
        decreases team.refs.len() - i,
    {
        if occurs_before(&team.refs, i) {
            return TeamStep::Done(
                Err(
                    String::from_str("The same order reference was found at least twice in payload"),
                ),
            );
        }
        i += 1;
    }
    let members: Vec<IdentifiedAttendee> = Vec::new();
    assert(attendee_views(members@) =~= Seq::<AttendeeView>::empty());
    next_member(config, team, sport, members)
}

/// Goes on with an examination that waits, given the reply to its question.
pub fn continue_team(
    config: &Config,
    team: &Team,
    sport: &Sport,
    state: Examination,
    reply: TeamReply,
) -> (step: TeamStep)
    ensures
        step@ == team_step(config@, text_views(team.refs@), sport@, state@, reply@),
{
    let Examination { members, stage } = state;
    if members.len() >= team.refs.len() {
        return TeamStep::Aborted;
    }
    match stage {
        Stage::Resolving(awaiting) => {
            let inner = match reply {
                TeamReply::Resolution(inner) => inner,
                _ => Reply::Failed(String::new()),
            };
            let resolution = complete_attendee(config, awaiting, inner);
            resolving(config, team, sport, members, resolution)
        },
        Stage::Membership(candidate) => match reply {
            TeamReply::Membership(in_team) => if in_team {
                let question = TeamQuestion::Name {
                    attendee_id: candidate.id,
                    school_id: candidate.school_id,
                };
                TeamStep::Ask(
                    Examination {
                        members,
                        stage: Stage::Naming(candidate, AttendeeStatus::AlreadyInATeam),
                    },
                    question,
                )
            } else {
                let ghost before = members@;
                let ghost admitted = candidate@;
                let mut members = members;
                members.push(candidate);
                assert(attendee_views(members@) =~= attendee_views(before).push(admitted));
                next_member(config, team, sport, members)
            },
            _ => TeamStep::Aborted,
        },
        Stage::Naming(candidate, status) => match reply {
            TeamReply::Name { first_name, last_name, school } => {
                let member = TeamMember::from_identified_attendee(
                    &candidate,
                    first_name,
                    last_name,
                    school,
                );
                let mut message = member.first_name;
                message.append(" ");
                message.append(member.last_name.as_str());
                message.append(" (");
                message.append(team.refs[members.len()].as_str());
                message.append(") causes a validation error, code:");
                message.append(status_name(status));
                TeamStep::Done(Err(message))
            },
            _ => TeamStep::Aborted,
        },
    }
}

/// Where an examination stands after the replies to its questions, in the
/// order in which they come; once it is over it stays as it is.
pub open spec fn examination(
    config: Seq<SectionView>,
    refs: Seq<Seq<char>>,
    sport: SportView,
    step: TeamStepView,
    replies: Seq<TeamReplyView>,
) -> TeamStepView
    decreases replies.len(),
{
    if replies.len() == 0 {
        step
    } else {
        match step {
            TeamStepView::Ask(state, _) => examination(
                config,
                refs,
                sport,
                team_step(config, refs, sport, state, replies[0]),
                replies.drop_first(),
            ),
            _ => step,
        }
    }
}

/// Where the examination of a team stands after the replies to its questions,
/// from its start.
pub open spec fn team_run(
    config: Seq<SectionView>,
    refs: Seq<Seq<char>>,
    sport: SportView,
    replies: Seq<TeamReplyView>,
) -> TeamStepView {
    examination(config, refs, sport, team_start(config, refs, sport), replies)
}

/// Whether `attendee` is what the resolution of `reference` comes to, for some
/// replies of the ticketing data to its three questions.
pub open spec fn resolves_to(
    config: Seq<SectionView>,
    reference: Seq<char>,
    attendee: AttendeeView,
) -> bool {
    exists|identity: ReplyView, answers: ReplyView, school: ReplyView| #[trigger]
        resolved(config, reference, identity, answers, school) == ResolutionView::Done(
            Ok(attendee),
        )
}

/// Whether an attendee was found eligible for a sport: every rule on the
/// attendee alone holds, with the tickets that the configuration lists, and
/// they are in no team of the sport.
pub open spec fn found_eligible(
    config: Seq<SectionView>,
    sport: SportView,
    attendee: AttendeeView,
) -> bool {
    athlete_ticket_ids(config) matches Some(tickets) && attendee_status(
        tickets,
        attendee,
        sport,
        false,
    ) == AttendeeStatus::Eligible
}

/// Whether each of `members` is the resolution of the reference at its
/// position and was found eligible.
pub open spec fn members_are_sound(
    config: Seq<SectionView>,
    refs: Seq<Seq<char>>,
    sport: SportView,
    members: Seq<AttendeeView>,
) -> bool {
    &&& members.len() <= refs.len()
    &&& forall|k: int|
        0 <= k < members.len() ==> resolves_to(config, refs[k], #[trigger] members[k])
            && found_eligible(config, sport, members[k])
}

/// Whether a resolution waits, and for what `awaiting` says.
pub open spec fn stands_at(step: ResolutionView, awaiting: AwaitingView) -> bool {
    step matches ResolutionView::Ask(state, _) && state == awaiting
}

/// Whether `awaiting` is where the resolution of `reference` stands at its
/// start, or after the first or the first two of the given replies.
pub open spec fn resolution_reaches(
    config: Seq<SectionView>,
    reference: Seq<char>,
    awaiting: AwaitingView,
    identity: ReplyView,
    answers: ReplyView,
) -> bool {
    let start = resolution_start(config, reference);
    let first = resolution_after(config, start, identity);
    let second = resolution_after(config, first, answers);
    ||| stands_at(start, awaiting)
    ||| start is Ask && stands_at(first, awaiting)
    ||| start is Ask && first is Ask && stands_at(second, awaiting)
}

/// Whether `awaiting` is a place where the resolution of `reference` can stand.
pub open spec fn under_resolution(
    config: Seq<SectionView>,
    reference: Seq<char>,
    awaiting: AwaitingView,
) -> bool {
    exists|identity: ReplyView, answers: ReplyView| #[trigger]
        resolution_reaches(config, reference, awaiting, identity, answers)
}

/// Whether an examination under way is one that a run from the start can
/// reach: the members admitted are sound, and the member at hand is under
/// resolution of the next reference, or is its resolution and eligible so far.
pub open spec fn examination_is_sound(
    config: Seq<SectionView>,
    refs: Seq<Seq<char>>,
    sport: SportView,
    state: ExaminationView,
) -> bool {
    &&& state.members.len() < refs.len()
    &&& members_are_sound(config, refs, sport, state.members)
    &&& match state.stage {
        StageView::Resolving(awaiting) => under_resolution(
            config,
            refs[state.members.len() as int],
            awaiting,
        ),
        StageView::Membership(candidate) => resolves_to(
            config,
            refs[state.members.len() as int],
            candidate,
        ) && found_eligible(config, sport, candidate),
        StageView::Naming(_, _) => true,
    }
}

/// Whether a team is validated as it should be: one member for each reference,
/// each the resolution of the reference at its position and found eligible,
/// and all from one school where the sport does not let schools mix.
pub open spec fn team_is_sound(
    config: Seq<SectionView>,
    refs: Seq<Seq<char>>,
    sport: SportView,
    members: Seq<AttendeeView>,
) -> bool {
    &&& members.len() == refs.len()
    &&& members_are_sound(config, refs, sport, members)
    &&& sport.school_mix_allowed || same_school(members)
}

/// Whether a step is sound: an examination under way is, and members come out
/// only as a team that is.
pub open spec fn step_is_sound(
    config: Seq<SectionView>,
    refs: Seq<Seq<char>>,
    sport: SportView,
    step: TeamStepView,
) -> bool {
    match step {
        TeamStepView::Ask(state, _) => examination_is_sound(config, refs, sport, state),
        TeamStepView::Done(Ok(members)) => team_is_sound(config, refs, sport, members),
        _ => true,
    }
}

/// A reply to a resolution that is under way leaves it under way, or ends it
/// with the resolution of the reference.
proof fn lemma_resolution_goes_on(
    config: Seq<SectionView>,
    reference: Seq<char>,
    awaiting: AwaitingView,
    reply: ReplyView,
)
    requires
        under_resolution(config, reference, awaiting),
    ensures
        match resolution_step(config, awaiting, reply) {
            ResolutionView::Ask(next, _) => under_resolution(config, reference, next),
            ResolutionView::Done(Ok(attendee)) => resolves_to(config, reference, attendee),
            _ => true,
        },
{
    let (identity, answers) = choose|identity: ReplyView, answers: ReplyView| #[trigger]
        resolution_reaches(config, reference, awaiting, identity, answers);
    let start = resolution_start(config, reference);
    let first = resolution_after(config, start, identity);
    let second = resolution_after(config, first, answers);
    let next = resolution_step(config, awaiting, reply);
    if stands_at(start, awaiting) {
        assert(next == resolution_after(config, start, reply));
        match next {
            ResolutionView::Ask(state, _) => {
                assert(resolution_reaches(config, reference, state, reply, reply));
            },
            ResolutionView::Done(Ok(attendee)) => {
                assert(resolved(config, reference, reply, reply, reply) == next);
            },
            _ => {},
        }
    } else if start is Ask && stands_at(first, awaiting) {
        assert(next == resolution_after(config, first, reply));
        match next {
            ResolutionView::Ask(state, _) => {
                assert(resolution_reaches(config, reference, state, identity, reply));
            },
            ResolutionView::Done(Ok(attendee)) => {
                assert(resolved(config, reference, identity, reply, reply) == next);
            },
            _ => {},
        }
    } else {
        assert(start is Ask && first is Ask && stands_at(second, awaiting));
        assert(next == resolved(config, reference, identity, answers, reply));
        assert(awaiting is School);
    }
}

/// A member who is resolved leaves the examination sound.
proof fn lemma_resolution_is_sound(
    config: Seq<SectionView>,
    refs: Seq<Seq<char>>,
    sport: SportView,
    members: Seq<AttendeeView>,
    resolution: ResolutionView,
)
    requires
        members.len() < refs.len(),
        members_are_sound(config, refs, sport, members),
        match resolution {
            ResolutionView::Ask(awaiting, _) => under_resolution(
                config,
                refs[members.len() as int],
                awaiting,
            ),
            ResolutionView::Done(Ok(attendee)) => resolves_to(
                config,
                refs[members.len() as int],
                attendee,
            ),
            _ => true,
        },
    ensures
        step_is_sound(config, refs, sport, team_resolution(config, refs, sport, members, resolution)),
{
}

/// Going on once sound members are admitted leaves the examination sound.
proof fn lemma_next_is_sound(
    config: Seq<SectionView>,
    refs: Seq<Seq<char>>,
    sport: SportView,
    members: Seq<AttendeeView>,
)
    requires
        members_are_sound(config, refs, sport, members),
    ensures
        step_is_sound(config, refs, sport, team_next(config, refs, sport, members)),
{
    if members.len() < refs.len() {
        let reference = refs[members.len() as int];
        let start = resolution_start(config, reference);
        let any = ReplyView::School(0);
        match start {
            ResolutionView::Ask(awaiting, _) => {
                assert(resolution_reaches(config, reference, awaiting, any, any));
            },
            _ => {},
        }
        lemma_resolution_is_sound(config, refs, sport, members, start);
    } else {
        lemma_settled_team_is_of_one_school(refs, sport, members);
    }
}

/// A reply to a sound examination leaves it sound.
proof fn lemma_step_is_sound(
    config: Seq<SectionView>,
    refs: Seq<Seq<char>>,
    sport: SportView,
    state: ExaminationView,
    reply: TeamReplyView,
)
    requires
        examination_is_sound(config, refs, sport, state),
    ensures
        step_is_sound(config, refs, sport, team_step(config, refs, sport, state, reply)),
{
    let reference = refs[state.members.len() as int];
    match state.stage {
        StageView::Resolving(awaiting) => {
            let inner = match reply {
                TeamReplyView::Resolution(inner) => inner,
                _ => ReplyView::Failed(Seq::empty()),
            };
            lemma_resolution_goes_on(config, reference, awaiting, inner);
            lemma_resolution_is_sound(
                config,
                refs,
                sport,
                state.members,
                resolution_step(config, awaiting, inner),
            );
        },
        StageView::Membership(candidate) => {
            if reply == TeamReplyView::Membership(false) {
                let admitted = state.members.push(candidate);
                assert forall|k: int| 0 <= k < admitted.len() implies resolves_to(
                    config,
                    refs[k],
                    #[trigger] admitted[k],
                ) && found_eligible(config, sport, admitted[k]) by {
                    if k < state.members.len() {
                        assert(admitted[k] == state.members[k]);
                    }
                }
                lemma_next_is_sound(config, refs, sport, admitted);
            }
        },
        StageView::Naming(_, _) => {},
    }
}

/// A run from a sound step ends with a sound step.
proof fn lemma_examination_is_sound(
    config: Seq<SectionView>,
    refs: Seq<Seq<char>>,
    sport: SportView,
    step: TeamStepView,
    replies: Seq<TeamReplyView>,
)
    requires
        step_is_sound(config, refs, sport, step),
    ensures
        step_is_sound(config, refs, sport, examination(config, refs, sport, step, replies)),
    decreases replies.len(),
{
    if replies.len() > 0 {
        if let TeamStepView::Ask(state, _) = step {
            lemma_step_is_sound(config, refs, sport, state, replies[0]);
            lemma_examination_is_sound(
                config,
                refs,
                sport,
                team_step(config, refs, sport, state, replies[0]),
                replies.drop_first(),
            );
        }
    }
}

/// Whatever the ticketing data replies, the members that the examination of a
/// team ends with are one for each reference; each is the resolution of the
/// reference at its position and was found eligible for the sport; and where
/// the sport does not let schools mix, they are all from one school.
pub proof fn lemma_validated_team_is_sound(
    config: Seq<SectionView>,
    refs: Seq<Seq<char>>,
    sport: SportView,
    replies: Seq<TeamReplyView>,
)
    ensures
        team_run(config, refs, sport, replies) matches TeamStepView::Done(Ok(members)) ==> {
            &&& members.len() == refs.len()
            &&& forall|k: int|
                0 <= k < members.len() ==> resolves_to(config, refs[k], #[trigger] members[k])
                    && found_eligible(config, sport, members[k])
            &&& sport.school_mix_allowed || same_school(members)
        },
{
    if !has_duplicates(refs) {
        assert(members_are_sound(config, refs, sport, Seq::<AttendeeView>::empty()));
        lemma_next_is_sound(config, refs, sport, Seq::<AttendeeView>::empty());
    }
    lemma_examination_is_sound(config, refs, sport, team_start(config, refs, sport), replies);
}

/// A team in which a reference stands twice is refused at the start, whatever
/// the configuration holds: no member is resolved.
pub proof fn lemma_repeated_reference_is_refused(
    config: Seq<SectionView>,
    refs: Seq<Seq<char>>,
    sport: SportView,
    i: int,
    j: int,
)
    requires
        0 <= i < j < refs.len(),
        refs[i] == refs[j],
    ensures
        has_duplicates(refs),
        team_start(config, refs, sport) == TeamStepView::Done(Err(repeated_message())),
{
    assert(seen_before(refs, j));
}

/// Where the sport does not let schools mix, a team with two members from
/// different schools is refused once all its members are admitted, with a
/// message that holds the rule and names a member: the first, in the order of
/// the references, who is not of the captain's school.
pub proof fn lemma_schools_differ(
    refs: Seq<Seq<char>>,
    sport: SportView,
    members: Seq<AttendeeView>,
    i: int,
    j: int,
)
    requires
        !sport.school_mix_allowed,
        0 <= i < members.len(),
        0 <= j < members.len(),
        members[i].school_id != members[j].school_id,
    ensures
        !same_school(members),
        stranger_from(members, 0) matches Some(first) && {
            &&& 0 < first < members.len()
            &&& members[first].school_id != members[0].school_id
            &&& forall|k: int|
                0 <= k < first ==> (#[trigger] members[k]).school_id == members[0].school_id
            &&& team_settled(refs, sport, members) == TeamStepView::Done(
                Err(mismatch_message(refs[first])),
            )
        },
{
    lemma_first_stranger(members, 0);
    if stranger_from(members, 0) is None {
        assert(members[i].school_id == members[0].school_id);
        assert(members[j].school_id == members[0].school_id);
    }
}

/// Where the sport does not let schools mix, a team is validated only if all
/// its members are of one school.
pub proof fn lemma_settled_team_is_of_one_school(
    refs: Seq<Seq<char>>,
    sport: SportView,
    members: Seq<AttendeeView>,
)
    ensures
        team_settled(refs, sport, members) is Done,
        team_settled(refs, sport, members) matches TeamStepView::Done(Ok(validated)) ==> validated
            == members && (sport.school_mix_allowed || same_school(members)),
        (sport.school_mix_allowed || same_school(members)) ==> team_settled(refs, sport, members)
            == TeamStepView::Done(Ok(members)),
{
    lemma_first_stranger(members, 0);
    if same_school(members) && stranger_from(members, 0) is Some {
        let first = stranger_from(members, 0).unwrap();
        assert(members[first].school_id == members[0].school_id);
    }
}

/// A team without a reference is validated as the team without a member,
/// whether its sport lets schools mix or not, and nothing is asked.
pub proof fn lemma_empty_team_is_validated(config: Seq<SectionView>, sport: SportView)
    ensures
        team_start(config, Seq::<Seq<char>>::empty(), sport) == TeamStepView::Done(
            Ok(Seq::<AttendeeView>::empty()),
        ),
{
}

/// What the resolution of a member finds fatal is fatal to the examination:
/// it is not turned into the user's error.
pub proof fn lemma_fatal_is_passed_on(
    config: Seq<SectionView>,
    refs: Seq<Seq<char>>,
    sport: SportView,
    members: Seq<AttendeeView>,
    diagnostic: Seq<char>,
)
    ensures
        team_resolution(config, refs, sport, members, ResolutionView::Fatal(diagnostic))
            == TeamStepView::Fatal(diagnostic),
{
}

/// An examination ends with members only when there is one for each
/// reference: those admitted before, in their order, and after them the one
/// admitted last; and where the sport does not let schools mix, they are all
/// from one school.
pub proof fn lemma_validated_team_is_whole(
    config: Seq<SectionView>,
    refs: Seq<Seq<char>>,
    sport: SportView,
    state: ExaminationView,
    reply: TeamReplyView,
)
    ensures
        team_step(config, refs, sport, state, reply) matches TeamStepView::Done(Ok(members)) ==> {
            &&& members.len() == refs.len()
            &&& state.stage matches StageView::Membership(candidate) && members
                == state.members.push(candidate)
            &&& reply == TeamReplyView::Membership(false)
            &&& sport.school_mix_allowed || same_school(members)
        },
{
    if state.members.len() < refs.len() {
        if let StageView::Membership(candidate) = state.stage {
            lemma_settled_team_is_of_one_school(refs, sport, state.members.push(candidate));
        }
    }
}

/// The members admitted stay as they are, in their order; a step adds at most
/// one, at the end: the one who was found to be in no team.
pub proof fn lemma_members_keep_their_order(
    config: Seq<SectionView>,
    refs: Seq<Seq<char>>,
    sport: SportView,
    state: ExaminationView,
    reply: TeamReplyView,
)
    ensures
        team_step(config, refs, sport, state, reply) matches TeamStepView::Ask(next, _) ==> {
            ||| next.members == state.members
            ||| state.stage matches StageView::Membership(candidate) && reply
                == TeamReplyView::Membership(false) && next.members == state.members.push(
                candidate,
            )
        },
{
}

/// A member is admitted only if the rules that need no knowledge of the teams
/// hold of them: the examination asks for the teams of no other.
pub proof fn lemma_teams_are_asked_for_the_eligible(
    config: Seq<SectionView>,
    sport: SportView,
    members: Seq<AttendeeView>,
    candidate: AttendeeView,
)
    ensures
        team_candidate(config, sport, members, candidate) matches TeamStepView::Ask(state, _)
            ==> (state.stage is Membership <==> status_before_team(
            athlete_ticket_ids(config).unwrap(),
            candidate,
            sport,
        ) == AttendeeStatus::Eligible),
{
}

/// Whether a team of `count` members is of a size that the sport allows: not
/// under its minimum, not over its maximum.
pub fn team_size_allowed(sport: &Sport, count: usize) -> (allowed: bool)
    ensures
        allowed == (sport.min_players <= count <= sport.max_players),
{
    !(count < sport.min_players as usize || count > sport.max_players as usize)
}

} // verus!
