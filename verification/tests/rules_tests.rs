use team_registration::attendee::{is_order_reference, parse_gender, sport_questions_name};
use team_registration::checks::read_tickets;
use team_registration::config::{find_sport, lookup_sport, Config, SportLookup};
use team_registration::defs::{
    AttendeeGender, AttendeeStatus, CompleteTeamMember, ContactRow, IdentifiedAttendee, Sport,
    SportGender, TeamMember,
};
use team_registration::responses::{
    get_check_attendee, cross_country_full, full_name, get_add_team_member, get_mark, secret_accepted,
    get_shotgun, Shotgun,
};
use team_registration::text::{copy_texts, join3, occurs_before, parse_bool, same_text};

fn member() -> CompleteTeamMember {
    CompleteTeamMember {
        attendee_id: 7,
        first_name: String::from("Ada"),
        last_name: String::from("Lovelace"),
        gender: String::from("Female"),
        school: String::from("Analytical"),
        sports: vec![String::from("Football")],
        email: String::from("ada@example.org"),
        phone: String::from("555"),
        attendee_ref: String::from("ABC-1"),
    }
}

fn contact() -> ContactRow {
    ContactRow {
        email: String::from("ada@example.org"),
        phone: String::from("555"),
        gender: String::from("Female"),
        attendee_ref: String::from("ABC-1"),
    }
}

#[test]
fn numbers_are_read_as_the_standard_library_reads_them() {
    assert_eq!(read_tickets("+5,007,0"), Some(vec![5, 7, 0]));
    assert_eq!(read_tickets("-1"), None);
    assert_eq!(read_tickets("+"), None);
    assert_eq!(read_tickets("++1"), None);
    assert_eq!(read_tickets("1 "), None);
    assert_eq!(read_tickets("12a"), None);
    assert_eq!(read_tickets("\u{0661}"), None);
    assert_eq!(read_tickets("5,"), None);
    assert_eq!(read_tickets(","), None);
}

#[test]
fn bounds_of_a_sport_are_read_as_eight_bit_numbers() {
    let text = |max: &str| {
        format!("[Polo]\ngender=mixed\nmin=+1\nmax={}\nmax_teams_per_school=010\n", max)
    };
    let sport = find_sport(&Config::read(&text("255")).unwrap(), "Polo", None).unwrap();
    assert_eq!((sport.min_players, sport.max_players, sport.max_teams_per_school), (1, 255, 10));
    let config = Config::read(&text("256")).unwrap();
    assert!(matches!(lookup_sport(&config, "Polo", None), SportLookup::Malformed));
    let config = Config::read(&text("-3")).unwrap();
    assert!(matches!(lookup_sport(&config, "Polo", None), SportLookup::Malformed));
}

#[test]
fn truth_values_are_spelled_in_lower_case() {
    assert_eq!(parse_bool("true"), Some(true));
    assert_eq!(parse_bool("false"), Some(false));
    assert_eq!(parse_bool("True"), None);
    assert_eq!(parse_bool("1"), None);
    assert_eq!(parse_bool(""), None);
}

#[test]
fn texts_are_compared_joined_and_copied() {
    assert!(same_text("abc", "abc"));
    assert!(!same_text("abc", "abd"));
    assert!(!same_text("abc", "ab"));
    assert_eq!(join3("a", "-", "b"), "a-b");
    let texts = vec![String::from("x"), String::from("y"), String::from("x")];
    assert_eq!(copy_texts(&texts), texts);
    assert!(!occurs_before(&texts, 0));
    assert!(!occurs_before(&texts, 1));
    assert!(occurs_before(&texts, 2));
}

#[test]
fn order_references_have_one_dash_and_twelve_bytes_at_most() {
    assert!(is_order_reference("hGsddrf-1"));
    assert!(is_order_reference("abcdefghij-1"));
    assert!(is_order_reference("-"));
    assert!(!is_order_reference("abcdefghijk-1"));
    assert!(!is_order_reference("hGsddrf"));
    assert!(!is_order_reference("a-b-c"));
    assert!(!is_order_reference(""));
}

#[test]
fn genders_are_named_in_full() {
    assert_eq!(parse_gender("Male"), Some(AttendeeGender::M));
    assert_eq!(parse_gender("Female"), Some(AttendeeGender::F));
    assert_eq!(parse_gender("M"), None);
    assert_eq!(sport_questions_name(AttendeeGender::M), "male_sport_question_ids");
    assert_eq!(sport_questions_name(AttendeeGender::F), "female_sport_question_ids");
}

#[test]
fn team_member_lists_sports_by_name() {
    let sport = |name: &str| Sport {
        name: String::from(name),
        min_players: 1,
        max_players: 2,
        gender: SportGender::Mixed,
        max_teams_per_school: 1,
        school_mix_allowed: false,
    };
    let attendee = IdentifiedAttendee {
        id: 7,
        ticket_id: 1,
        gender: AttendeeGender::F,
        sports: vec![sport("Football"), sport("Volleyball")],
        school_id: 3,
    };
    let m = TeamMember::from_identified_attendee(
        &attendee,
        String::from("Ada"),
        String::from("Lovelace"),
        String::from("Analytical"),
    );
    assert_eq!(m.attendee_id, 7);
    assert_eq!((m.first_name.as_str(), m.last_name.as_str(), m.school.as_str()), ("Ada", "Lovelace", "Analytical"));
    assert_eq!(m.sports, vec![String::from("Football"), String::from("Volleyball")]);

    let full = CompleteTeamMember::from_team_member(&m, Some(contact()));
    assert_eq!(full.attendee_id, 7);
    assert_eq!(full.sports, m.sports);
    assert_eq!((full.email.as_str(), full.phone.as_str()), ("ada@example.org", "555"));
    assert_eq!((full.gender.as_str(), full.attendee_ref.as_str()), ("Female", "ABC-1"));
    let bare = CompleteTeamMember::from_team_member(&m, None);
    assert_eq!((bare.first_name.as_str(), bare.school.as_str()), ("Ada", "Analytical"));
    assert_eq!((bare.email.as_str(), bare.phone.as_str()), ("none", "none"));
    assert_eq!((bare.gender.as_str(), bare.attendee_ref.as_str()), ("none", "none"));
}

#[test]
fn complete_member_is_composed() {
    let full = CompleteTeamMember::from_attendee_id(
        7,
        String::from("Ada"),
        String::from("Lovelace"),
        String::from("Analytical"),
        contact(),
        vec![String::from("Football")],
    );
    let expected = member();
    assert_eq!(full.attendee_id, expected.attendee_id);
    assert_eq!(full.first_name, expected.first_name);
    assert_eq!(full.last_name, expected.last_name);
    assert_eq!(full.gender, expected.gender);
    assert_eq!(full.school, expected.school);
    assert_eq!(full.sports, expected.sports);
    assert_eq!(full.email, expected.email);
    assert_eq!(full.phone, expected.phone);
    assert_eq!(full.attendee_ref, expected.attendee_ref);
    assert_eq!(full_name(&full), "Ada Lovelace");
}

#[test]
fn check_names_the_member_only_when_eligible() {
    let fine = get_check_attendee(AttendeeStatus::Eligible, member(), "Football", "F");
    assert_eq!(fine.message, "Ok");
    assert_eq!(fine.member.map(|m| m.attendee_id), Some(7));
    let not = get_check_attendee(AttendeeStatus::AlreadyInATeam, member(), "Football", "F");
    assert_eq!(not.message, "Ada Lovelace is already in a Football team");
    assert!(not.member.is_none());
}

#[test]
fn joining_a_team_is_refused_by_verdict() {
    assert_eq!(get_add_team_member(AttendeeStatus::Eligible), None);
    assert_eq!(
        get_add_team_member(AttendeeStatus::InvalidGender),
        Some(String::from("Error : InvalidGender"))
    );
}

#[test]
fn secret_is_compared_with_the_configured_one() {
    let config = Config::read("[main]\nsport_secret=s3cr3t\n").unwrap();
    assert_eq!(secret_accepted(&config, "sport_secret", "s3cr3t"), Some(true));
    assert_eq!(secret_accepted(&config, "sport_secret", "guess"), Some(false));
    assert_eq!(secret_accepted(&config, "check_in_secret", "s3cr3t"), None);
}

#[test]
fn scan_of_a_ticket() {
    let cancelled = get_mark(member(), true, true, "2024-05-01 10:00:00", false);
    assert_eq!(cancelled.response.message, "Ada Lovelace has cancelled their ticket!");
    assert!(cancelled.response.member.is_none());
    assert!(!cancelled.mark);
    let again = get_mark(member(), false, true, "2024-05-01 10:00:00", false);
    assert_eq!(
        again.response.message,
        "Ada Lovelace ticket has already been scanned at 2024-05-01 10:00:00"
    );
    assert!(again.response.member.is_some());
    assert!(!again.mark);
    let first = get_mark(member(), false, false, "", false);
    assert_eq!(first.response.message, "Ok");
    assert!(first.response.member.is_some());
    assert!(first.mark);
    assert!(!get_mark(member(), false, false, "", true).mark);
}

#[test]
fn cross_country_places() {
    assert!(!cross_country_full(150));
    assert!(cross_country_full(151));
    assert_eq!(get_shotgun(1, Some(true)), Shotgun::Nothing);
    assert_eq!(get_shotgun(0, Some(true)), Shotgun::Register);
    assert_eq!(get_shotgun(0, Some(false)), Shotgun::Nothing);
    assert_eq!(get_shotgun(0, None), Shotgun::Offer);
}
