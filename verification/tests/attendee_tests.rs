use team_registration::attendee::{
    attendee_sports, complete_attendee, get_attendee, retrieve_attendee, AttendeeRow, Awaiting,
    Question, Reply, Resolution,
};
use team_registration::checks::{
    athlete_tickets, has_correct_gender, has_sport, has_team, is_athlete, read_tickets,
    settle_attendee, validate_attendee, Validation,
};
use team_registration::config::Config;
use team_registration::defs::{AttendeeGender, AttendeeStatus, IdentifiedAttendee, Sport, SportGender};

fn config() -> Config {
    Config::read(
        "[main]
athlete_ticket_ids=1,2,5
gender_question_id=17
male_sport_question_ids=(5,6)
female_sport_question_ids=(7,8)
school_question_id=15

[Football]
gender=strict
minM=7
maxM=11
minF=5
maxF=9
max_teams_per_school=2

[Volleyball]
gender=mixed
min=6
max=8
max_teams_per_school=1

[Polo]
gender=mixed
min=four
max=5
max_teams_per_school=1
",
    )
    .unwrap()
}

fn sport(name: &str, gender: SportGender) -> Sport {
    Sport {
        name: String::from(name),
        min_players: 1,
        max_players: 10,
        gender,
        max_teams_per_school: 2,
        school_mix_allowed: false,
    }
}

fn attendee(ticket_id: u32, gender: AttendeeGender, sports: Vec<Sport>) -> IdentifiedAttendee {
    IdentifiedAttendee { id: 40, ticket_id, gender, sports, school_id: 3 }
}

fn status_of(step: &Validation) -> Option<AttendeeStatus> {
    match step {
        Validation::Decided(status) => Some(*status),
        Validation::Pending(_) => None,
    }
}

fn message(step: Resolution) -> String {
    match step {
        Resolution::Done(Err(message)) => message,
        other => panic!("{:?}", other),
    }
}

fn asked(step: Resolution) -> (Awaiting, Question) {
    match step {
        Resolution::Ask(state, question) => (state, question),
        other => panic!("{:?}", other),
    }
}

fn fatal(step: Resolution) -> String {
    match step {
        Resolution::Fatal(diagnostic) => diagnostic,
        other => panic!("{:?}", other),
    }
}

fn resolved(step: Resolution) -> IdentifiedAttendee {
    match step {
        Resolution::Done(Ok(found)) => found,
        other => panic!("{:?}", other),
    }
}

fn row(attendee_id: u32, ticket_id: u32, gender_name: &str) -> Reply {
    Reply::Attendee(Some(AttendeeRow { attendee_id, ticket_id, gender_name: String::from(gender_name) }))
}

#[test]
fn reference_without_dash_is_refused() {
    assert_eq!(message(retrieve_attendee(&config(), "hGsddrf1")), "Order reference invalid");
    assert_eq!(message(retrieve_attendee(&config(), "")), "Order reference invalid");
}

#[test]
fn reference_with_two_dashes_is_refused() {
    assert_eq!(message(retrieve_attendee(&config(), "ab-cd-1")), "Order reference invalid");
    assert_eq!(message(retrieve_attendee(&config(), "--")), "Order reference invalid");
}

#[test]
fn reference_over_twelve_bytes_is_refused() {
    assert_eq!(message(retrieve_attendee(&config(), "abcdefghijk-1")), "Order reference invalid");
    // Five characters of three bytes each and a dash and a digit: 17 bytes.
    assert_eq!(
        message(retrieve_attendee(&config(), "\u{20ac}\u{20ac}\u{20ac}\u{20ac}\u{20ac}-1")),
        "Order reference invalid"
    );
}

#[test]
fn reference_is_refused_whatever_the_configuration() {
    let empty = Config { sections: vec![] };
    assert_eq!(message(retrieve_attendee(&empty, "abc")), "Order reference invalid");
    assert!(matches!(retrieve_attendee(&empty, "abc-1"), Resolution::Unreadable));
}

#[test]
fn reference_of_two_parts_is_asked_for() {
    match asked(retrieve_attendee(&config(), "hGsddrf-1")) {
        (Awaiting::Identity, Question::OrderLine { order_reference, reference_index, gender_question_id }) => {
            assert_eq!(order_reference, "hGsddrf");
            assert_eq!(reference_index, "1");
            assert_eq!(gender_question_id, "17");
        }
        other => panic!("{:?}", other),
    }
    match asked(retrieve_attendee(&config(), "abcdefghij-1")).1 {
        Question::OrderLine { order_reference, .. } => assert_eq!(order_reference, "abcdefghij"),
        other => panic!("{:?}", other),
    }
    match asked(retrieve_attendee(&config(), "-")).1 {
        Question::OrderLine { order_reference, reference_index, .. } => {
            assert_eq!((order_reference.as_str(), reference_index.as_str()), ("", ""))
        }
        other => panic!("{:?}", other),
    }
}

#[test]
fn attendee_by_id_is_asked_for() {
    match asked(get_attendee(&config(), 77)) {
        (Awaiting::IdentityOf { attendee_id: 77 }, Question::Attendee { attendee_id, gender_question_id }) => {
            assert_eq!(attendee_id, 77);
            assert_eq!(gender_question_id, "17");
        }
        other => panic!("{:?}", other),
    }
    assert!(matches!(get_attendee(&Config { sections: vec![] }, 77), Resolution::Unreadable));
}

#[test]
fn answers_to_the_first_question() {
    let config = config();
    assert_eq!(
        message(complete_attendee(&config, Awaiting::Identity, Reply::Attendee(None))),
        "Attendee not found"
    );
    assert_eq!(
        message(complete_attendee(
            &config,
            Awaiting::Identity,
            Reply::Failed(String::from("pool timed out"))
        )),
        "Error while retrieving attendee : pool timed out"
    );
    assert_eq!(
        message(complete_attendee(&config, Awaiting::Identity, Reply::School(3))),
        "Error while retrieving attendee : "
    );
    let by_id = Awaiting::IdentityOf { attendee_id: 9 };
    assert_eq!(
        message(complete_attendee(&config, by_id.clone(), Reply::Attendee(None))),
        "Attendee not found"
    );
    assert_eq!(
        message(complete_attendee(&config, by_id.clone(), Reply::Failed(String::from("gone")))),
        "SQL error while getting attendee"
    );
    // The id that was asked for stands, whatever the row says.
    match asked(complete_attendee(&config, by_id, row(0, 5, "Female"))) {
        (Awaiting::Sports { attendee_id, ticket_id, gender }, _) => {
            assert_eq!((attendee_id, ticket_id, gender), (9, 5, AttendeeGender::F))
        }
        other => panic!("{:?}", other),
    }
}

#[test]
fn gender_selects_the_sport_questions() {
    match asked(complete_attendee(&config(), Awaiting::Identity, row(4, 2, "Male"))) {
        (Awaiting::Sports { attendee_id, ticket_id, gender }, Question::Sports { attendee_id: asked_id, question_ids }) => {
            assert_eq!((attendee_id, ticket_id, gender), (4, 2, AttendeeGender::M));
            assert_eq!((asked_id, question_ids.as_str()), (4, "(5,6)"));
        }
        other => panic!("{:?}", other),
    }
    match asked(complete_attendee(&config(), Awaiting::Identity, row(4, 2, "Female"))).1 {
        Question::Sports { question_ids, .. } => assert_eq!(question_ids, "(7,8)"),
        other => panic!("{:?}", other),
    }
}

#[test]
fn unknown_gender_name_is_fatal() {
    for (name, diagnostic) in [
        ("male", "Gender name unknown 'male'"),
        ("", "Gender name unknown ''"),
        ("Other", "Gender name unknown 'Other'"),
    ] {
        assert_eq!(
            fatal(complete_attendee(&config(), Awaiting::Identity, row(4, 2, name))),
            diagnostic
        );
        let by_id = Awaiting::IdentityOf { attendee_id: 4 };
        assert_eq!(fatal(complete_attendee(&config(), by_id, row(4, 2, name))), diagnostic);
    }
    // Even where the configuration could not tell the questions to ask next.
    let empty = Config { sections: vec![] };
    assert_eq!(
        fatal(complete_attendee(&empty, Awaiting::Identity, row(4, 2, "male"))),
        "Gender name unknown 'male'"
    );
}

#[test]
fn missing_option_stops_the_resolution() {
    let bare = Config::read("[main]\ngender_question_id=17\nmale_sport_question_ids=(5)\n").unwrap();
    assert!(matches!(
        complete_attendee(&bare, Awaiting::Identity, row(4, 2, "Female")),
        Resolution::Unreadable
    ));
    let waiting = Awaiting::Sports { attendee_id: 4, ticket_id: 2, gender: AttendeeGender::M };
    assert!(matches!(
        complete_attendee(&bare, waiting, Reply::Answers(vec![])),
        Resolution::Unreadable
    ));
}

#[test]
fn answers_to_the_later_questions() {
    let config = config();
    let waiting = Awaiting::Sports { attendee_id: 4, ticket_id: 2, gender: AttendeeGender::M };
    assert_eq!(
        message(complete_attendee(&config, waiting.clone(), Reply::Failed(String::from("gone")))),
        "SQL error while retrieving attendee sports"
    );
    assert!(matches!(
        complete_attendee(&config, waiting.clone(), Reply::Answers(vec![String::from("Polo")])),
        Resolution::Unreadable
    ));
    let answers = Reply::Answers(vec![String::from("Football"), String::from("Chess")]);
    let (state, question) = asked(complete_attendee(&config, waiting, answers));
    match question {
        Question::School { attendee_id, school_question_id } => {
            assert_eq!((attendee_id, school_question_id.as_str()), (4, "15"))
        }
        other => panic!("{:?}", other),
    }
    assert_eq!(
        fatal(complete_attendee(&config, state.clone(), Reply::Failed(String::from("no rows")))),
        "SQL error while retrieving attendee school"
    );
    assert_eq!(
        fatal(complete_attendee(&config, state.clone(), Reply::Attendee(None))),
        "SQL error while retrieving attendee school"
    );
    let found = resolved(complete_attendee(&config, state, Reply::School(12)));
    assert_eq!((found.id, found.ticket_id, found.school_id), (4, 2, 12));
    assert_eq!(found.gender, AttendeeGender::M);
    assert_eq!(found.sports.len(), 1);
    assert_eq!(found.sports[0].name, "Football");
    assert_eq!((found.sports[0].min_players, found.sports[0].max_players), (7, 11));
}

#[test]
fn declared_sports_are_the_configured_ones() {
    let answers = vec![
        String::from("Football"),
        String::from("Cross Country"),
        String::from("Football"),
        String::from("Volleyball"),
    ];
    let sports = attendee_sports(&config(), AttendeeGender::F, &answers).unwrap();
    assert_eq!(sports.len(), 2);
    assert_eq!(sports[0].name, "Football");
    assert_eq!(sports[0].gender, SportGender::F);
    assert_eq!((sports[0].min_players, sports[0].max_players), (5, 9));
    assert_eq!(sports[1].name, "Volleyball");
    assert_eq!(sports[1].gender, SportGender::Mixed);
    assert_eq!(attendee_sports(&config(), AttendeeGender::M, &vec![]).unwrap().len(), 0);
}

#[test]
fn declared_sport_that_cannot_be_read() {
    let answers = vec![String::from("Football"), String::from("Polo")];
    assert!(attendee_sports(&config(), AttendeeGender::M, &answers).is_none());
}

#[test]
fn ticket_list_is_read() {
    assert_eq!(read_tickets("1,2,5"), Some(vec![1, 2, 5]));
    assert_eq!(read_tickets("4294967295"), Some(vec![4294967295]));
    assert_eq!(read_tickets("1,,2"), None);
    assert_eq!(read_tickets("1, 2"), None);
    assert_eq!(read_tickets(""), None);
    assert_eq!(read_tickets("4294967296"), None);
    assert_eq!(athlete_tickets(&config()), Some(vec![1, 2, 5]));
    assert_eq!(athlete_tickets(&Config { sections: vec![] }), None);
}

#[test]
fn athlete_by_ticket() {
    assert!(is_athlete(&vec![1, 2, 5], 5));
    assert!(!is_athlete(&vec![1, 2, 5], 3));
    assert!(!is_athlete(&vec![], 0));
}

#[test]
fn sport_among_the_declared() {
    let a = attendee(1, AttendeeGender::M, vec![sport("Football", SportGender::M)]);
    assert!(has_sport(&a, "Football"));
    assert!(!has_sport(&a, "football"));
    assert!(!has_sport(&attendee(1, AttendeeGender::M, vec![]), "Football"));
}

#[test]
fn gender_against_policy() {
    let male = attendee(1, AttendeeGender::M, vec![]);
    let female = attendee(1, AttendeeGender::F, vec![]);
    assert!(has_correct_gender(&male, &sport("Football", SportGender::M)));
    assert!(!has_correct_gender(&female, &sport("Football", SportGender::M)));
    assert!(has_correct_gender(&female, &sport("Football", SportGender::F)));
    assert!(!has_correct_gender(&male, &sport("Football", SportGender::F)));
    assert!(has_correct_gender(&male, &sport("Volleyball", SportGender::Mixed)));
    assert!(has_correct_gender(&female, &sport("Volleyball", SportGender::Mixed)));
}

#[test]
fn no_declared_sport_is_invalid_sport() {
    // Even without an athlete's ticket and against a sport of the other gender.
    let a = attendee(9, AttendeeGender::F, vec![]);
    for target in [sport("Football", SportGender::M), sport("Volleyball", SportGender::Mixed)] {
        let step = validate_attendee(&vec![1, 2, 5], &a, &target);
        assert_eq!(status_of(&step), Some(AttendeeStatus::InvalidSport));
        assert_eq!(settle_attendee(step, true), AttendeeStatus::InvalidSport);
    }
}

#[test]
fn rules_fail_in_their_order() {
    let tickets = vec![1, 2, 5];
    let football = sport("Football", SportGender::M);
    let supporter = attendee(9, AttendeeGender::F, vec![sport("Volleyball", SportGender::Mixed)]);
    assert_eq!(
        status_of(&validate_attendee(&tickets, &supporter, &football)),
        Some(AttendeeStatus::NotAnAthlete)
    );
    let elsewhere = attendee(1, AttendeeGender::F, vec![sport("Volleyball", SportGender::Mixed)]);
    assert_eq!(
        status_of(&validate_attendee(&tickets, &elsewhere, &football)),
        Some(AttendeeStatus::SportNotRegistered)
    );
    let other_gender = attendee(1, AttendeeGender::F, vec![sport("Football", SportGender::F)]);
    assert_eq!(
        status_of(&validate_attendee(&tickets, &other_gender, &football)),
        Some(AttendeeStatus::InvalidGender)
    );
}

#[test]
fn team_is_asked_for_last() {
    let a = attendee(2, AttendeeGender::M, vec![sport("Football", SportGender::M)]);
    let step = validate_attendee(&vec![1, 2, 5], &a, &sport("Football", SportGender::M));
    match &step {
        Validation::Pending(query) => {
            assert_eq!((query.attendee_id, query.sport.as_str()), (40, "Football"))
        }
        Validation::Decided(status) => panic!("{:?}", status),
    }
    assert_eq!(settle_attendee(step.clone(), false), AttendeeStatus::Eligible);
    assert_eq!(settle_attendee(step, true), AttendeeStatus::AlreadyInATeam);
    assert!(has_team(Some((3, String::from("Eagles")))));
    assert!(!has_team(None));
}

#[test]
fn attendee_is_resolved_question_by_question() {
    let config = config();
    let replies = vec![
        row(31, 5, "Female"),
        Reply::Answers(vec![String::from("Volleyball"), String::from("Football")]),
        Reply::School(8),
    ];
    let mut step = retrieve_attendee(&config, "hGsddrf-2");
    let mut questions = 0;
    for reply in replies {
        step = match step {
            Resolution::Ask(state, _) => {
                questions += 1;
                complete_attendee(&config, state, reply)
            }
            other => other,
        };
    }
    assert_eq!(questions, 3);
    let found = resolved(step);
    assert_eq!((found.id, found.ticket_id, found.school_id), (31, 5, 8));
    assert_eq!(found.gender, AttendeeGender::F);
    let names: Vec<&str> = found.sports.iter().map(|s| s.name.as_str()).collect();
    assert_eq!(names, vec!["Volleyball", "Football"]);
    assert!(found.sports.iter().all(|s| s.gender != SportGender::M));
    // The resolved attendee is eligible for the sport of her gender that she declared.
    let step = validate_attendee(&athlete_tickets(&config).unwrap(), &found, &found.sports[1]);
    assert_eq!(settle_attendee(step, false), AttendeeStatus::Eligible);
}

#[test]
fn texts_that_are_no_reference_are_all_refused() {
    for bad in ["", "a", "abc", "a-b-c", "a--b", "-a-", "abcdefghijkl-", "-abcdefghijkl", "a b", "a_1"] {
        assert_eq!(message(retrieve_attendee(&config(), bad)), "Order reference invalid", "{}", bad);
    }
}
