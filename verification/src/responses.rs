//! What the service answers: the decisions of its handlers, and the messages
//! that go with them.

use vstd::prelude::*;
use vstd::string::StringExecFns;
use crate::config::{
    find_option, lookup_sport, option_value, sport_lookup, Config, SectionView, SportLookup,
    SportOutcome,
};
use crate::defs::{
    AttendeeGender, AttendeeStatus, CheckAttendeeResponse, CompleteTeamMember, IdentifiedAttendee,
    SimpleResponse, SimpleResponseCode, Sport, SportGender, SportView, Team,
};
use crate::team::{status_label, status_name, team_size_allowed};
use crate::text::{boolean_word, decimal_text, join3, number_text, parse_bool, same_text};

verus! {

/// Where the root of the service sends its visitors.
pub fn get_index() -> (target: &'static str)
    ensures
        target@ == "https://european-aerostudent-games.com"@,
{
    "https://european-aerostudent-games.com"
}

/// The answer to a request that broke the service.
pub fn internal_error() -> (response: SimpleResponse)
    ensures
        response.message@ == "Whoops! Looks like we messed up."@,
        response.code == SimpleResponseCode::ServerError,
{
    SimpleResponse {
        message: String::from_str("Whoops! Looks like we messed up."),
        code: SimpleResponseCode::ServerError,
    }
}

/// The answer to a request for a path that the service does not have.
pub fn not_found(uri: &str) -> (response: SimpleResponse)
    ensures
        response.message@ == "I couldn't find '"@ + uri@ + "'. Try something else?"@,
        response.code == SimpleResponseCode::UserError,
{
    SimpleResponse {
        message: join3("I couldn't find '", uri, "'. Try something else?"),
        code: SimpleResponseCode::UserError,
    }
}

/// Whether teams can be registered: the truth value of the global option
/// `team_registration_open`; `None` where the option is absent or spells none.
pub open spec fn registration_open(config: Seq<SectionView>) -> Option<bool> {
    match option_value(config, "team_registration_open"@) {
        Some(word) => boolean_word(word),
        None => None,
    }
}

/// Whether teams can be registered, if the configuration says.
pub fn team_registration_open(config: &Config) -> (open: Option<bool>)
    ensures
        open == registration_open(config@),
{
    match find_option(config, "team_registration_open") {
        Some(word) => parse_bool(word.as_str()),
        None => None,
    }
}

/// The gender of the members of a team under a policy; a mixed team has none.
pub fn team_gender(policy: SportGender) -> (gender: Option<AttendeeGender>)
    ensures
        gender == match policy {
            SportGender::M => Some(AttendeeGender::M),
            SportGender::F => Some(AttendeeGender::F),
            SportGender::Mixed => None::<AttendeeGender>,
        },
{
    match policy {
        SportGender::M => Some(AttendeeGender::M),
        SportGender::F => Some(AttendeeGender::F),
        SportGender::Mixed => None,
    }
}

/// The gender to look a sport up for, given the gender that a check names,
/// `M`, `F` or `Mixed`, and the attendee's own, which stands for `Mixed`.
pub open spec fn gender_asked(team_gender: Seq<char>, own: AttendeeGender) -> Option<
    AttendeeGender,
> {
    if team_gender == "M"@ {
        Some(AttendeeGender::M)
    } else if team_gender == "Mixed"@ {
        Some(own)
    } else if team_gender == "F"@ {
        Some(AttendeeGender::F)
    } else {
        None
    }
}

/// The gender to look a sport up for; `None` for a word that names none.
pub fn requested_gender(team_gender: &str, own: AttendeeGender) -> (gender: Option<AttendeeGender>)
    ensures
        gender == gender_asked(team_gender@, own),
{
    if same_text(team_gender, "M") {
        Some(AttendeeGender::M)
    } else if same_text(team_gender, "Mixed") {
        Some(own)
    } else if same_text(team_gender, "F") {
        Some(AttendeeGender::F)
    } else {
        None
    }
}

/// What an attendee is told about a verdict.
pub open spec fn verdict_message(
    status: AttendeeStatus,
    full_name: Seq<char>,
    team_sport: Seq<char>,
    team_gender: Seq<char>,
) -> Seq<char> {
    match status {
        AttendeeStatus::SportNotRegistered => full_name + " did not register in "@ + team_sport,
        AttendeeStatus::InvalidSport => full_name
            + " has an invalid sport name or sport is unavailable"@,
        AttendeeStatus::AlreadyInATeam => full_name + " is already in a "@ + team_sport + " team"@,
        AttendeeStatus::NotAnAthlete => full_name + " is a supporter, not an athlete"@,
        AttendeeStatus::InvalidGender => team_sport
            + " does not allow mixed teams, every team member must be of gender "@ + team_gender,
        AttendeeStatus::Eligible => "Ok"@,
    }
}

/// What an attendee is told about a verdict.
pub fn check_message(
    status: AttendeeStatus,
    full_name: &str,
    team_sport: &str,
    team_gender: &str,
) -> (message: String)
    ensures
        message@ == verdict_message(status, full_name@, team_sport@, team_gender@),
{
    match status {
        AttendeeStatus::SportNotRegistered => join3(full_name, " did not register in ", team_sport),
        AttendeeStatus::InvalidSport => {
            let mut message = String::from_str(full_name);
            message.append(" has an invalid sport name or sport is unavailable");
            message
        },
        AttendeeStatus::AlreadyInATeam => {
            let mut message = join3(full_name, " is already in a ", team_sport);
            message.append(" team");
            message
        },
        AttendeeStatus::NotAnAthlete => {
            let mut message = String::from_str(full_name);
            message.append(" is a supporter, not an athlete");
            message
        },
        AttendeeStatus::InvalidGender => join3(
            team_sport,
            " does not allow mixed teams, every team member must be of gender ",
            team_gender,
        ),
        AttendeeStatus::Eligible => String::from_str("Ok"),
    }
}

/// The message for a team of a size that its sport does not allow.
pub open spec fn team_size_message(min: u8, max: u8, count: nat) -> Seq<char> {
    "Invalid number of team members, is should be between "@ + decimal_text(min as u64) + " and "@
        + decimal_text(max as u64) + " and not "@ + decimal_text(count as u64)
}

/// Why a team cannot be created, or the rules of its sport.
#[derive(Debug)]
pub enum TeamRequest {
    /// The request goes on to the validation of its members.
    Accepted(Sport),
    /// The request is answered at once.
    Answered(SimpleResponse),
    /// The configuration cannot be read: it does not say whether registration
    /// is open, or a field of the sport holds no number.
    Unreadable,
}

/// What the first look at a request for a team comes to, before any of its
/// members is resolved.
pub open spec fn request_outcome(
    config: Seq<SectionView>,
    team_sport: Seq<char>,
    policy: SportGender,
    count: nat,
) -> Option<Result<SportView, Seq<char>>> {
    match registration_open(config) {
        None => None,
        Some(false) => Some(Err("It is not possible to register a team right now"@)),
        Some(true) => match sport_lookup(
            config,
            team_sport,
            match policy {
                SportGender::M => Some(AttendeeGender::M),
                SportGender::F => Some(AttendeeGender::F),
                SportGender::Mixed => None,
            },
        ) {
            SportOutcome::Malformed => None,
            SportOutcome::Rejected(_) => Some(Err("Invalid 'sport' field in JSON payload"@)),
            SportOutcome::Found(rules) => if rules.min_players <= count <= rules.max_players {
                Some(Ok(rules))
            } else {
                Some(Err(team_size_message(rules.min_players, rules.max_players, count)))
            },
        },
    }
}

/// Takes a first look at a request for a team: registration must be open, the
/// sport must be configured for the gender of the team, and the number of
/// references must lie within the bounds of the sport, both included. Whatever
/// fails is the user's error.
pub fn post_create_team(config: &Config, team: &Team) -> (request: TeamRequest)
    ensures
        match request {
            TeamRequest::Accepted(rules) => request_outcome(
                config@,
                team.sport@,
                team.gender,
                team.refs@.len(),
            ) == Some(Ok::<SportView, Seq<char>>(rules@)),
            TeamRequest::Answered(response) => response.code == SimpleResponseCode::UserError
                && request_outcome(config@, team.sport@, team.gender, team.refs@.len()) == Some(
                Err::<SportView, Seq<char>>(response.message@),
            ),
            TeamRequest::Unreadable => request_outcome(
                config@,
                team.sport@,
                team.gender,
                team.refs@.len(),
            ) is None,
        },
{
    match team_registration_open(config) {
        None => TeamRequest::Unreadable,
        Some(false) => TeamRequest::Answered(
            SimpleResponse {
                message: String::from_str("It is not possible to register a team right now"),
                code: SimpleResponseCode::UserError,
            },
        ),
        Some(true) => match lookup_sport(config, team.sport.as_str(), team_gender(team.gender)) {
            SportLookup::Malformed => TeamRequest::Unreadable,
            SportLookup::Rejected(_) => TeamRequest::Answered(
                SimpleResponse {
                    message: String::from_str("Invalid 'sport' field in JSON payload"),
                    code: SimpleResponseCode::UserError,
                },
            ),
            SportLookup::Found(rules) => {
                let count = team.refs.len();
                if team_size_allowed(&rules, count) {
                    TeamRequest::Accepted(rules)
                } else {
                    let mut message = String::from_str(
                        "Invalid number of team members, is should be between ",
                    );
                    message.append(number_text(rules.min_players as u64).as_str());
                    message.append(" and ");
                    message.append(number_text(rules.max_players as u64).as_str());
                    message.append(" and not ");
                    message.append(number_text(count as u64).as_str());
                    TeamRequest::Answered(
                        SimpleResponse { message, code: SimpleResponseCode::UserError },
                    )
                }
            },
        },
    }
}

/// The question how many teams a school has in a sport.
#[derive(Clone, Debug)]
pub struct TeamCountQuery {
    pub school_id: u32,
    pub sport: String,
}

/// Asks how many teams the school of an attendee has in a sport.
pub fn school_team_query(attendee: &IdentifiedAttendee, sport: &Sport) -> (query: TeamCountQuery)
    ensures
        query.school_id == attendee.school_id,
        query.sport@ == sport.name@,
{
    TeamCountQuery { school_id: attendee.school_id, sport: sport.name.clone() }
}

/// Checks if a school is allowed to register one more team in a sport, given
/// the number of teams it has: it is while that number is under the sport's
/// limit of teams per school.
pub fn can_school_register_team(team_count: i64, sport: &Sport) -> (allowed: bool)
    ensures
        allowed == (team_count < sport.max_teams_per_school),
{
    team_count < sport.max_teams_per_school as i64
}

/// The message for a school that has all the teams it may have in a sport.
pub open spec fn quota_message(sport: SportView) -> Seq<char> {
    "Your school has already registered "@ + decimal_text(sport.max_teams_per_school as u64)
        + " teams in this sport, in "@ + sport.name
        + " it is not possible to register more teams"@
}

/// The answer to a captain whose school has all the teams it may have.
pub fn quota_response(sport: &Sport) -> (response: SimpleResponse)
    ensures
        response.message@ == quota_message(sport@),
        response.code == SimpleResponseCode::UserError,
{
    let mut message = String::from_str("Your school has already registered ");
    message.append(number_text(sport.max_teams_per_school as u64).as_str());
    message.append(" teams in this sport, in ");
    message.append(sport.name.as_str());
    message.append(" it is not possible to register more teams");
    SimpleResponse { message, code: SimpleResponseCode::UserError }
}

/// The answer to a captain, given the verdict on them: a success where they are
/// eligible, else the user's error that names the verdict.
pub fn get_can_register(status: AttendeeStatus) -> (response: SimpleResponse)
    ensures
        status == AttendeeStatus::Eligible ==> response.message@ == "Ok"@ && response.code
            == SimpleResponseCode::Success,
        status != AttendeeStatus::Eligible ==> response.message@
            == "You cannot register a team, code:"@ + status_label(status) && response.code
            == SimpleResponseCode::UserError,
{
    match status {
        AttendeeStatus::Eligible => SimpleResponse {
            message: String::from_str("Ok"),
            code: SimpleResponseCode::Success,
        },
        other => {
            let mut message = String::from_str("You cannot register a team, code:");
            message.append(status_name(other));
            SimpleResponse { message, code: SimpleResponseCode::UserError }
        },
    }
}

/// The full name of a member.
pub fn full_name(member: &CompleteTeamMember) -> (name: String)
    ensures
        name@ == member.first_name@ + " "@ + member.last_name@,
{
    join3(member.first_name.as_str(), " ", member.last_name.as_str())
}

/// The answer to a check of one attendee for a team: the verdict in words, and
/// the member where the verdict is that they are eligible.
pub fn get_check_attendee(
    status: AttendeeStatus,
    member: CompleteTeamMember,
    team_sport: &str,
    team_gender: &str,
) -> (response: CheckAttendeeResponse)
    ensures
        response.message@ == verdict_message(
            status,
            member.first_name@ + " "@ + member.last_name@,
            team_sport@,
            team_gender@,
        ),
        response.member == (if status == AttendeeStatus::Eligible {
            Some(member)
        } else {
            None
        }),
{
    let name = full_name(&member);
    let message = check_message(status, name.as_str(), team_sport, team_gender);
    match status {
        AttendeeStatus::Eligible => CheckAttendeeResponse { message, member: Some(member) },
        _ => CheckAttendeeResponse { message, member: None },
    }
}

/// Why an attendee cannot join an existing team; nothing where they can.
pub fn get_add_team_member(status: AttendeeStatus) -> (refusal: Option<String>)
    ensures
        match refusal {
            None => status == AttendeeStatus::Eligible,
            Some(message) => status != AttendeeStatus::Eligible && message@ == "Error : "@
                + status_label(status),
        },
{
    match status {
        AttendeeStatus::Eligible => None,
        other => {
            let mut message = String::from_str("Error : ");
            message.append(status_name(other));
            Some(message)
        },
    }
}

/// Whether a secret is the one that the configuration holds under the given
/// option; `None` where the configuration holds none.
pub fn secret_accepted(config: &Config, option: &str, secret: &str) -> (accepted: Option<bool>)
    ensures
        accepted == match option_value(config@, option@) {
            Some(expected) => Some(expected == secret@),
            None => None,
        },
{
    match find_option(config, option) {
        Some(expected) => Some(same_text(expected.as_str(), secret)),
        None => None,
    }
}

/// What a scan of a ticket comes to.
#[derive(Debug)]
pub struct Scan {
    /// The answer to the scanner.
    pub response: CheckAttendeeResponse,
    /// Whether the attendee is to be marked as arrived now.
    pub mark: bool,
}

/// What a scanner is told about a ticket.
pub open spec fn scan_message(
    name: Seq<char>,
    is_cancelled: bool,
    has_arrived: bool,
    arrival: Seq<char>,
) -> Seq<char> {
    if is_cancelled {
        name + " has cancelled their ticket!"@
    } else if has_arrived {
        name + " ticket has already been scanned at "@ + arrival
    } else {
        "Ok"@
    }
}

/// Decides on the scan of a ticket. A cancelled ticket is refused without its
/// holder; one scanned before is reported with the time of that scan; any other
/// is accepted, and marked as arrived unless scans are read-only.
pub fn get_mark(
    member: CompleteTeamMember,
    is_cancelled: bool,
    has_arrived: bool,
    arrival: &str,
    read_only: bool,
) -> (scan: Scan)
    ensures
        scan.response.message@ == scan_message(
            member.first_name@ + " "@ + member.last_name@,
            is_cancelled,
            has_arrived,
            arrival@,
        ),
        scan.response.member == (if is_cancelled {
            None
        } else {
            Some(member)
        }),
        scan.mark == (!is_cancelled && !has_arrived && !read_only),
{
    if is_cancelled {
        let mut message = full_name(&member);
        message.append(" has cancelled their ticket!");
        Scan { response: CheckAttendeeResponse { message, member: None }, mark: false }
    } else if has_arrived {
        let mut message = full_name(&member);
        message.append(" ticket has already been scanned at ");
        message.append(arrival);
        Scan { response: CheckAttendeeResponse { message, member: Some(member) }, mark: false }
    } else {
        Scan {
            response: CheckAttendeeResponse { message: String::from_str("Ok"), member: Some(member) },
            mark: !read_only,
        }
    }
}

/// Whether the cross-country run is full: it takes 150 runners.
pub fn cross_country_full(runners: i64) -> (full: bool)
    ensures
        full == (runners > 150),
{
    runners > 150
}

/// What to do with an athlete who asks for a place in the cross-country run.
#[derive(Clone, Copy, PartialEq, Eq, Structural, Debug)]
pub enum Shotgun {
    /// Nothing: they have a place already, or declined.
    Nothing,
    /// Ask them whether they want the place.
    Offer,
    /// Write their place down.
    Register,
}

/// Decides on a place in the cross-country run, given how many places the
/// athlete has and what they chose, if they chose.
pub fn get_shotgun(places: i64, choice: Option<bool>) -> (action: Shotgun)
    ensures
        action == (if places > 0 {
            Shotgun::Nothing
        } else {
            match choice {
                Some(true) => Shotgun::Register,
                Some(false) => Shotgun::Nothing,
                None => Shotgun::Offer,
            }
        }),
{
    if places > 0 {
        Shotgun::Nothing
    } else {
        match choice {
            Some(true) => Shotgun::Register,
            Some(false) => Shotgun::Nothing,
            None => Shotgun::Offer,
        }
    }
}

} // verus!
