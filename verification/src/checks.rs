//! The eligibility rules for one attendee.
//!
//! Nothing here queries anything. A function that needs a row of the ticketing
//! data says which one, and the function after it takes the row as a plain
//! value.

use vstd::prelude::*;
use crate::config::{find_option, option_value, Config};
use crate::defs::{
    AttendeeGender, AttendeeStatus, AttendeeView, IdentifiedAttendee, Sport, SportGender, SportView,
};
use crate::text::{decimal_u32, parse_u32, same_text, split_on, split_text};

verus! {

/// Whether a sport of the given name is among `sports`.
pub open spec fn registered_for(sports: Seq<SportView>, name: Seq<char>) -> bool {
    exists|i: int| 0 <= i < sports.len() && (#[trigger] sports[i]).name == name
}

/// Checks if the attendee registered in the sport of the given name.
pub fn has_sport(attendee: &IdentifiedAttendee, sport_name: &str) -> (found: bool)
    ensures
        found == registered_for(attendee@.sports, sport_name@),
{
    let mut i: usize = 0;
    while i < attendee.sports.len()
        invariant
            i <= attendee.sports.len(),
            forall|j: int| 0 <= j < i ==> (#[trigger] attendee@.sports[j]).name != sport_name@,
        decreases attendee.sports.len() - i,
    {
        if same_text(attendee.sports[i].name.as_str(), sport_name) {
            assert(attendee@.sports[i as int].name == sport_name@);
            return true;
        }
        i += 1;
    }
    false
}

/// Whether a team under `policy` admits an attendee of `gender`: a mixed team
/// admits everyone, any other team its own gender.
pub open spec fn gender_admitted(policy: SportGender, gender: AttendeeGender) -> bool {
    match policy {
        SportGender::Mixed => true,
        SportGender::M => gender == AttendeeGender::M,
        SportGender::F => gender == AttendeeGender::F,
    }
}

/// Checks if the attendee's gender matches the gender policy of the team's sport.
pub fn has_correct_gender(attendee: &IdentifiedAttendee, team_sport: &Sport) -> (admitted: bool)
    ensures
        admitted == gender_admitted(team_sport@.gender, attendee@.gender),
{
    match team_sport.gender {
        SportGender::Mixed => true,
        SportGender::M => attendee.gender == AttendeeGender::M,
        SportGender::F => attendee.gender == AttendeeGender::F,
    }
}

/// A mixed sport admits attendees of both genders.
pub proof fn lemma_mixed_admits_all(sport: SportView, attendee: AttendeeView)
    requires
        sport.gender == SportGender::Mixed,
    ensures
        gender_admitted(sport.gender, attendee.gender),
{
}

/// The ticket ids that a list separated by commas spells, in order; `None`
/// where a field of the list is no number.
pub open spec fn ticket_list(text: Seq<char>) -> Option<Seq<u32>> {
    let fields = split_on(text, ',');
    if forall|i: int| 0 <= i < fields.len() ==> decimal_u32(#[trigger] fields[i]) is Some {
        Some(Seq::new(fields.len(), |i: int| decimal_u32(fields[i]).unwrap()))
    } else {
        None
    }
}

/// Reads a list of ticket ids separated by commas.
pub fn read_tickets(text: &str) -> (tickets: Option<Vec<u32>>)
    ensures
        match tickets {
            Some(ids) => ticket_list(text@) == Some(ids@),
            None => ticket_list(text@) is None,
        },
{
    let fields = split_text(text, ',');
    let ghost parts = split_on(text@, ',');
    let mut ids: Vec<u32> = Vec::new();
    let mut i: usize = 0;
    while i < fields.len()
        invariant
            i <= fields.len(),
            parts == split_on(text@, ','),
            fields@.len() == parts.len(),
            forall|j: int| 0 <= j < fields@.len() ==> (#[trigger] fields@[j])@ == parts[j],
            ids@.len() == i,
            forall|j: int| 0 <= j < i ==> decimal_u32(#[trigger] parts[j]) == Some(ids@[j]),
        decreases fields.len() - i,
    {
        match parse_u32(fields[i].as_str()) {
            Some(id) => {
                ids.push(id);
            },
            None => {
                assert(decimal_u32(parts[i as int]) is None);
                return None;
            },
        }
        i += 1;
    }
    assert(ids@ =~= Seq::new(parts.len(), |j: int| decimal_u32(parts[j]).unwrap()));
    Some(ids)
}

/// The ticket ids that make their holder an athlete: the global option
/// `athlete_ticket_ids`. `None` where the option is absent or cannot be read.
pub open spec fn athlete_ticket_ids(config: Seq<crate::config::SectionView>) -> Option<Seq<u32>> {
    match option_value(config, "athlete_ticket_ids"@) {
        Some(text) => ticket_list(text),
        None => None,
    }
}

/// The ticket ids that make their holder an athlete.
pub fn athlete_tickets(config: &Config) -> (tickets: Option<Vec<u32>>)
    ensures
        match tickets {
            Some(ids) => athlete_ticket_ids(config@) == Some(ids@),
            None => athlete_ticket_ids(config@) is None,
        },
{
    match find_option(config, "athlete_ticket_ids") {
        Some(text) => read_tickets(text.as_str()),
        None => None,
    }
}

/// Whether a ticket id is among those of athletes.
pub fn is_athlete(tickets: &Vec<u32>, ticket_id: u32) -> (athlete: bool)
    ensures
        athlete == tickets@.contains(ticket_id),
{
    let mut i: usize = 0;
    while i < tickets.len()
        invariant
            i <= tickets.len(),
            forall|j: int| 0 <= j < i ==> tickets@[j] != ticket_id,
        decreases tickets.len() - i,
    {
        if tickets[i] == ticket_id {
            return true;
        }
        i += 1;
    }
    false
}

/// The verdict on an attendee for a sport as far as it can be given without
/// knowing the teams: the first rule that fails, in this order: the attendee
/// declared no sport at all; the ticket is not an athlete's; the sport is not
/// among those declared; the gender does not fit the sport's policy.
pub open spec fn status_before_team(
    tickets: Seq<u32>,
    attendee: AttendeeView,
    sport: SportView,
) -> AttendeeStatus {
    if attendee.sports.len() == 0 {
        AttendeeStatus::InvalidSport
    } else if !tickets.contains(attendee.ticket_id) {
        AttendeeStatus::NotAnAthlete
    } else if !registered_for(attendee.sports, sport.name) {
        AttendeeStatus::SportNotRegistered
    } else if !gender_admitted(sport.gender, attendee.gender) {
        AttendeeStatus::InvalidGender
    } else {
        AttendeeStatus::Eligible
    }
}

/// The verdict on an attendee for a sport: that of `status_before_team`, and
/// after it the rule that the attendee is in no team of the sport yet.
pub open spec fn attendee_status(
    tickets: Seq<u32>,
    attendee: AttendeeView,
    sport: SportView,
    in_team: bool,
) -> AttendeeStatus {
    let early = status_before_team(tickets, attendee, sport);
    if early == AttendeeStatus::Eligible && in_team {
        AttendeeStatus::AlreadyInATeam
    } else {
        early
    }
}

/// The question whether an attendee is in a team of a sport already.
#[derive(Clone, Debug)]
pub struct MembershipQuery {
    pub attendee_id: u32,
    pub sport: String,
}

/// Where the rules stand on an attendee.
#[derive(Clone, Debug)]
pub enum Validation {
    /// A rule failed, and the teams need not be looked at.
    Decided(AttendeeStatus),
    /// Every rule on the attendee alone holds; the verdict hangs on the answer
    /// to the question.
    Pending(MembershipQuery),
}

impl Validation {
    /// The verdict that this comes to once it is known whether the attendee is
    /// in a team of the sport.
    pub open spec fn verdict(self, in_team: bool) -> AttendeeStatus {
        match self {
            Validation::Decided(early) => early,
            Validation::Pending(_) => if in_team {
                AttendeeStatus::AlreadyInATeam
            } else {
                AttendeeStatus::Eligible
            },
        }
    }
}

/// Applies the rules that need no knowledge of the teams, and asks for the
/// attendee's team where all of them hold. Whatever the answer is, the verdict
/// is that of the rules in their order.
pub fn validate_attendee(tickets: &Vec<u32>, attendee: &IdentifiedAttendee, sport: &Sport) -> (step:
    Validation)
    ensures
        match step {
            Validation::Decided(status) => status != AttendeeStatus::Eligible && status
                == status_before_team(tickets@, attendee@, sport@),
            Validation::Pending(query) => status_before_team(tickets@, attendee@, sport@)
                == AttendeeStatus::Eligible && query.attendee_id == attendee.id && query.sport@
                == sport.name@,
        },
        forall|in_team: bool| #[trigger]
            step.verdict(in_team) == attendee_status(tickets@, attendee@, sport@, in_team),
{
    if attendee.sports.len() == 0 {
        Validation::Decided(AttendeeStatus::InvalidSport)
    } else if !is_athlete(tickets, attendee.ticket_id) {
        Validation::Decided(AttendeeStatus::NotAnAthlete)
    } else if !has_sport(attendee, sport.name.as_str()) {
        Validation::Decided(AttendeeStatus::SportNotRegistered)
    } else if !has_correct_gender(attendee, sport) {
        Validation::Decided(AttendeeStatus::InvalidGender)
    } else {
        Validation::Pending(MembershipQuery { attendee_id: attendee.id, sport: sport.name.clone() })
    }
}

/// Whether the attendee is in a team of the sport: whether the question of
/// `validate_attendee` found a row.
pub fn has_team(team_row: Option<(u32, String)>) -> (in_team: bool)
    ensures
        in_team == team_row is Some,
{
    team_row.is_some()
}

/// The verdict once the teams are known.
pub fn settle_attendee(step: Validation, in_team: bool) -> (status: AttendeeStatus)
    ensures
        status == step.verdict(in_team),
{
    match step {
        Validation::Decided(early) => early,
        Validation::Pending(_) => if in_team {
            AttendeeStatus::AlreadyInATeam
        } else {
            AttendeeStatus::Eligible
        },
    }
}

/// An attendee who declared no sport is refused with `InvalidSport`, whatever
/// the sport, the tickets and the teams are.
pub proof fn lemma_no_sport_is_invalid(
    tickets: Seq<u32>,
    attendee: AttendeeView,
    sport: SportView,
    in_team: bool,
)
    requires
        attendee.sports.len() == 0,
    ensures
        status_before_team(tickets, attendee, sport) == AttendeeStatus::InvalidSport,
        attendee_status(tickets, attendee, sport, in_team) == AttendeeStatus::InvalidSport,
{
}

} // verus!
