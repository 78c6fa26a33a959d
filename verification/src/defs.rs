//! The records that the rules speak of, each with its mathematical view.

use vstd::prelude::*;
use vstd::string::StringExecFns;
use crate::text::{copy_texts, text_views};

verus! {

/// Who may play in a team of a sport.
#[derive(Clone, Copy, PartialEq, Eq, Structural, Debug)]
pub enum SportGender {
    M,
    F,
    Mixed,
}

/// The gender that an attendee declared.
#[derive(Clone, Copy, PartialEq, Eq, Structural, Debug)]
pub enum AttendeeGender {
    M,
    F,
}

/// A sport as the configuration describes it for one gender.
#[derive(Clone, PartialEq, Debug)]
pub struct Sport {
    pub name: String,
    pub min_players: u8,
    pub max_players: u8,
    pub gender: SportGender,
    /// How many teams one school may enter in this sport.
    pub max_teams_per_school: u8,
    pub school_mix_allowed: bool,
}

/// What a `Sport` is, with its name as a sequence of characters.
pub ghost struct SportView {
    pub name: Seq<char>,
    pub min_players: u8,
    pub max_players: u8,
    pub gender: SportGender,
    pub max_teams_per_school: u8,
    pub school_mix_allowed: bool,
}

impl View for Sport {
    type V = SportView;

    open spec fn view(&self) -> SportView {
        SportView {
            name: self.name@,
            min_players: self.min_players,
            max_players: self.max_players,
            gender: self.gender,
            max_teams_per_school: self.max_teams_per_school,
            school_mix_allowed: self.school_mix_allowed,
        }
    }
}

/// The views of a list of sports, in order.
pub open spec fn sport_views(sports: Seq<Sport>) -> Seq<SportView> {
    Seq::new(sports.len(), |i: int| sports[i]@)
}

/// An attendee known only by an order reference and a sport.
#[derive(Clone, Debug)]
pub struct UnidentifiedAttendee {
    pub order_ref: String,
    pub sport: String,
}

/// An attendee resolved against the ticketing data.
#[derive(Clone, Debug)]
pub struct IdentifiedAttendee {
    pub id: u32,
    pub ticket_id: u32,
    pub gender: AttendeeGender,
    pub sports: Vec<Sport>,
    pub school_id: u32,
}

/// What an `IdentifiedAttendee` is.
pub ghost struct AttendeeView {
    pub id: u32,
    pub ticket_id: u32,
    pub gender: AttendeeGender,
    pub sports: Seq<SportView>,
    pub school_id: u32,
}

impl View for IdentifiedAttendee {
    type V = AttendeeView;

    open spec fn view(&self) -> AttendeeView {
        AttendeeView {
            id: self.id,
            ticket_id: self.ticket_id,
            gender: self.gender,
            sports: sport_views(self.sports@),
            school_id: self.school_id,
        }
    }
}

/// The views of a list of attendees, in order.
pub open spec fn attendee_views(members: Seq<IdentifiedAttendee>) -> Seq<AttendeeView> {
    Seq::new(members.len(), |i: int| members[i]@)
}

/// A team member as shown to other members.
#[derive(Clone, Debug)]
pub struct TeamMember {
    pub attendee_id: u32,
    pub first_name: String,
    pub last_name: String,
    pub school: String,
    pub sports: Vec<String>,
}

/// The names of a list of sports, in order.
pub open spec fn sport_names(sports: Seq<Sport>) -> Seq<Seq<char>> {
    Seq::new(sports.len(), |i: int| sports[i].name@)
}

impl TeamMember {
    /// The member that an attendee makes, under the name and the school that
    /// the ticketing data has for them: their sports are listed by name.
    pub fn from_identified_attendee(
        attendee: &IdentifiedAttendee,
        first_name: String,
        last_name: String,
        school: String,
    ) -> (member: TeamMember)
        ensures
            member.attendee_id == attendee.id,
            member.first_name == first_name,
            member.last_name == last_name,
            member.school == school,
            text_views(member.sports@) == sport_names(attendee.sports@),
    {
        let mut sports: Vec<String> = Vec::new();
        let mut i: usize = 0;
        while i < attendee.sports.len()
            invariant
                i <= attendee.sports.len(),
                sports@.len() == i,
                forall|j: int| 0 <= j < i ==> (#[trigger] sports@[j])@ == attendee.sports@[j].name@,
            decreases attendee.sports.len() - i,
        {
            sports.push(attendee.sports[i].name.clone());
            i += 1;
        }
        assert(text_views(sports@) =~= sport_names(attendee.sports@));
        TeamMember { attendee_id: attendee.id, first_name, last_name, school, sports }
    }
}

/// How to reach a member, as the ticketing data has it.
#[derive(Clone, Debug)]
pub struct ContactRow {
    pub email: String,
    pub phone: String,
    pub gender: String,
    pub attendee_ref: String,
}

/// A team member with contact details.
#[derive(Clone, Debug)]
pub struct CompleteTeamMember {
    pub attendee_id: u32,
    pub first_name: String,
    pub last_name: String,
    pub gender: String,
    pub school: String,
    pub sports: Vec<String>,
    pub email: String,
    pub phone: String,
    pub attendee_ref: String,
}

/// What stands for a contact detail that is not known.
pub open spec fn unknown_detail() -> Seq<char> {
    "none"@
}

impl CompleteTeamMember {
    /// A member with their contact details; where the ticketing data has none,
    /// each detail reads `none`.
    pub fn from_team_member(member: &TeamMember, contact: Option<ContactRow>) -> (full:
        CompleteTeamMember)
        ensures
            full.attendee_id == member.attendee_id,
            full.first_name@ == member.first_name@,
            full.last_name@ == member.last_name@,
            full.school@ == member.school@,
            text_views(full.sports@) == text_views(member.sports@),
            match contact {
                Some(row) => full.email == row.email && full.phone == row.phone && full.gender
                    == row.gender && full.attendee_ref == row.attendee_ref,
                None => full.email@ == unknown_detail() && full.phone@ == unknown_detail()
                    && full.gender@ == unknown_detail() && full.attendee_ref@ == unknown_detail(),
            },
    {
        let row = match contact {
            Some(row) => row,
            None => ContactRow {
                email: String::from_str("none"),
                phone: String::from_str("none"),
                gender: String::from_str("none"),
                attendee_ref: String::from_str("none"),
            },
        };
        CompleteTeamMember {
            attendee_id: member.attendee_id,
            first_name: member.first_name.clone(),
            last_name: member.last_name.clone(),
            gender: row.gender,
            school: member.school.clone(),
            sports: copy_texts(&member.sports),
            email: row.email,
            phone: row.phone,
            attendee_ref: row.attendee_ref,
        }
    }

    /// The member of a given id, from their name and school, their contact
    /// details and the sports that they declared.
    pub fn from_attendee_id(
        attendee_id: u32,
        first_name: String,
        last_name: String,
        school: String,
        contact: ContactRow,
        sports: Vec<String>,
    ) -> (full: CompleteTeamMember)
        ensures
            full.attendee_id == attendee_id,
            full.first_name == first_name,
            full.last_name == last_name,
            full.school == school,
            full.sports == sports,
            full.email == contact.email,
            full.phone == contact.phone,
            full.gender == contact.gender,
            full.attendee_ref == contact.attendee_ref,
    {
        CompleteTeamMember {
            attendee_id,
            first_name,
            last_name,
            gender: contact.gender,
            school,
            sports,
            email: contact.email,
            phone: contact.phone,
            attendee_ref: contact.attendee_ref,
        }
    }
}

/// A request to create a team.
#[derive(Clone, Debug)]
pub struct Team {
    pub name: String,
    pub school_id: u32,
    pub sport: String,
    pub refs: Vec<String>,
    pub gender: SportGender,
}

/// A persisted team as listed.
#[derive(Clone, Debug)]
pub struct TeamView {
    pub name: String,
    pub school: String,
    pub sport: String,
    pub gender: String,
    pub uuid: String,
}

/// The verdict of the eligibility rules on one attendee.
#[derive(Clone, Copy, PartialEq, Eq, Structural, Debug)]
pub enum AttendeeStatus {
    Eligible,
    InvalidSport,
    InvalidGender,
    SportNotRegistered,
    AlreadyInATeam,
    NotAnAthlete,
}

/// The class of an answer.
#[derive(Clone, Copy, PartialEq, Eq, Structural, Debug)]
pub enum SimpleResponseCode {
    Success,
    UserError,
    ServerError,
}

/// An answer that is a message and its class.
#[derive(Clone, Debug)]
pub struct SimpleResponse {
    pub message: String,
    pub code: SimpleResponseCode,
}

/// The answer to a check of one attendee.
#[derive(Clone, Debug)]
pub struct CheckAttendeeResponse {
    pub message: String,
    pub member: Option<CompleteTeamMember>,
}

} // verus!
