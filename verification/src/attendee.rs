//! Resolving an attendee: from an order reference, or from an id, to the
//! attendee's ticket, gender, declared sports and school.
//!
//! The data come from three questions put to the ticketing data one after the
//! other. A resolution is either over or waits for the reply to a question;
//! `complete_attendee` takes the reply and says how the resolution goes on.

use vstd::prelude::*;
use vstd::string::StringExecFns;
use vstd::utf8::encode_utf8;
use crate::checks::gender_admitted;
use crate::config::{
    find_option, lemma_found_sport_admits, lookup_sport, option_value, sport_lookup, Config,
    SectionView, SportLookup, SportOutcome,
};
use crate::defs::{sport_views, AttendeeGender, AttendeeView, IdentifiedAttendee, Sport, SportView};
use crate::text::{
    join3, lemma_split_count, occurrences, occurs_before, same_text, seen_before, split_on,
    split_text, text_views,
};

verus! {

/// Whether a text is an order reference: at most twelve bytes long, and of two
/// parts around a dash.
pub open spec fn well_formed_reference(order_ref: Seq<char>) -> bool {
    encode_utf8(order_ref).len() <= 12 && split_on(order_ref, '-').len() == 2
}

/// An order reference has exactly one dash: a text without a dash, or with two
/// or more, is none, and neither is one of more than twelve bytes.
pub proof fn lemma_reference_has_one_dash(order_ref: Seq<char>)
    ensures
        well_formed_reference(order_ref) <==> (encode_utf8(order_ref).len() <= 12 && occurrences(
            order_ref,
            '-',
        ) == 1),
{
    lemma_split_count(order_ref, '-');
}

/// Whether a text is an order reference.
pub fn is_order_reference(order_ref: &str) -> (well_formed: bool)
    ensures
        well_formed == well_formed_reference(order_ref@),
{
    if order_ref.as_bytes().len() > 12 {
        false
    } else {
        split_text(order_ref, '-').len() == 2
    }
}

/// A question to the ticketing data.
#[derive(Clone, Debug)]
pub enum Question {
    /// Who is the attendee of this line of this order, what is their ticket,
    /// and what did they answer to the question for their gender?
    OrderLine { order_reference: String, reference_index: String, gender_question_id: String },
    /// What is the ticket of this attendee, and what did they answer to the
    /// question for their gender?
    Attendee { attendee_id: u32, gender_question_id: String },
    /// What did this attendee answer to these questions for their sports?
    Sports { attendee_id: u32, question_ids: String },
    /// Which school did this attendee name in answer to this question?
    School { attendee_id: u32, school_question_id: String },
}

/// What a `Question` is.
pub ghost enum QuestionView {
    OrderLine {
        order_reference: Seq<char>,
        reference_index: Seq<char>,
        gender_question_id: Seq<char>,
    },
    Attendee { attendee_id: u32, gender_question_id: Seq<char> },
    Sports { attendee_id: u32, question_ids: Seq<char> },
    School { attendee_id: u32, school_question_id: Seq<char> },
}

impl View for Question {
    type V = QuestionView;

    open spec fn view(&self) -> QuestionView {
        match self {
            Question::OrderLine { order_reference, reference_index, gender_question_id } =>
                QuestionView::OrderLine {
                    order_reference: order_reference@,
                    reference_index: reference_index@,
                    gender_question_id: gender_question_id@,
                },
            Question::Attendee { attendee_id, gender_question_id } => QuestionView::Attendee {
                attendee_id: *attendee_id,
                gender_question_id: gender_question_id@,
            },
            Question::Sports { attendee_id, question_ids } => QuestionView::Sports {
                attendee_id: *attendee_id,
                question_ids: question_ids@,
            },
            Question::School { attendee_id, school_question_id } => QuestionView::School {
                attendee_id: *attendee_id,
                school_question_id: school_question_id@,
            },
        }
    }
}

/// The row that identifies an attendee.
#[derive(Clone, Debug)]
pub struct AttendeeRow {
    pub attendee_id: u32,
    pub ticket_id: u32,
    pub gender_name: String,
}

/// The reply to a question.
#[derive(Clone, Debug)]
pub enum Reply {
    /// The question could not be answered; with the words of the failure.
    Failed(String),
    /// The row of the attendee asked for, if there is one.
    Attendee(Option<AttendeeRow>),
    /// The answers of an attendee, one text for each.
    Answers(Vec<String>),
    /// The id of a school.
    School(u32),
}

/// What a `Reply` is; the row of an attendee is the id, the ticket and the
/// name of the gender.
pub ghost enum ReplyView {
    Failed(Seq<char>),
    Attendee(Option<(u32, u32, Seq<char>)>),
    Answers(Seq<Seq<char>>),
    School(u32),
}

impl View for Reply {
    type V = ReplyView;

    open spec fn view(&self) -> ReplyView {
        match self {
            Reply::Failed(words) => ReplyView::Failed(words@),
            Reply::Attendee(Some(row)) => ReplyView::Attendee(
                Some((row.attendee_id, row.ticket_id, row.gender_name@)),
            ),
            Reply::Attendee(None) => ReplyView::Attendee(None),
            Reply::Answers(answers) => ReplyView::Answers(text_views(answers@)),
            Reply::School(school_id) => ReplyView::School(*school_id),
        }
    }
}

/// What a resolution waits for.
#[derive(Clone, Debug)]
pub enum Awaiting {
    /// The attendee of an order line.
    Identity,
    /// The ticket and the gender of the attendee of this id.
    IdentityOf { attendee_id: u32 },
    /// The sports that the attendee declared.
    Sports { attendee_id: u32, ticket_id: u32, gender: AttendeeGender },
    /// The school of the attendee.
    School { attendee_id: u32, ticket_id: u32, gender: AttendeeGender, sports: Vec<Sport> },
}

/// What an `Awaiting` is.
pub ghost enum AwaitingView {
    Identity,
    IdentityOf { attendee_id: u32 },
    Sports { attendee_id: u32, ticket_id: u32, gender: AttendeeGender },
    School { attendee_id: u32, ticket_id: u32, gender: AttendeeGender, sports: Seq<SportView> },
}

impl View for Awaiting {
    type V = AwaitingView;

    open spec fn view(&self) -> AwaitingView {
        match self {
            Awaiting::Identity => AwaitingView::Identity,
            Awaiting::IdentityOf { attendee_id } => AwaitingView::IdentityOf {
                attendee_id: *attendee_id,
            },
            Awaiting::Sports { attendee_id, ticket_id, gender } => AwaitingView::Sports {
                attendee_id: *attendee_id,
                ticket_id: *ticket_id,
                gender: *gender,
            },
            Awaiting::School { attendee_id, ticket_id, gender, sports } => AwaitingView::School {
                attendee_id: *attendee_id,
                ticket_id: *ticket_id,
                gender: *gender,
                sports: sport_views(sports@),
            },
        }
    }
}

/// Where a resolution stands.
#[derive(Debug)]
pub enum Resolution {
    /// It waits for the reply to a question.
    Ask(Awaiting, Question),
    /// It is over: the attendee, or the message that says why there is none.
    Done(Result<IdentifiedAttendee, String>),
    /// The ticketing data cannot be trusted: the attendee's gender has a name
    /// that is none, or the attendee has no school. No attendee is made up;
    /// with the diagnostic.
    Fatal(String),
    /// It cannot go on: the configuration lacks an option that is needed now,
    /// or cannot be read for a sport that the attendee declared.
    Unreadable,
}

/// What a `Resolution` is.
pub ghost enum ResolutionView {
    Ask(AwaitingView, QuestionView),
    Done(Result<AttendeeView, Seq<char>>),
    Fatal(Seq<char>),
    Unreadable,
}

impl View for Resolution {
    type V = ResolutionView;

    open spec fn view(&self) -> ResolutionView {
        match self {
            Resolution::Ask(state, question) => ResolutionView::Ask(state@, question@),
            Resolution::Done(Ok(attendee)) => ResolutionView::Done(Ok(attendee@)),
            Resolution::Done(Err(message)) => ResolutionView::Done(Err(message@)),
            Resolution::Fatal(diagnostic) => ResolutionView::Fatal(diagnostic@),
            Resolution::Unreadable => ResolutionView::Unreadable,
        }
    }
}

/// A resolution that is over without an attendee.
pub open spec fn refused(message: Seq<char>) -> ResolutionView {
    ResolutionView::Done(Err(message))
}

/// How the resolution of an order reference starts. A text that is no order
/// reference is refused at once, and nothing is asked.
pub open spec fn resolution_start(
    config: Seq<SectionView>,
    order_ref: Seq<char>,
) -> ResolutionView {
    if !well_formed_reference(order_ref) {
        refused("Order reference invalid"@)
    } else {
        match option_value(config, "gender_question_id"@) {
            None => ResolutionView::Unreadable,
            Some(gender_question_id) => ResolutionView::Ask(
                AwaitingView::Identity,
                QuestionView::OrderLine {
                    order_reference: split_on(order_ref, '-')[0],
                    reference_index: split_on(order_ref, '-')[1],
                    gender_question_id,
                },
            ),
        }
    }
}

/// How the resolution of an attendee's id starts.
pub open spec fn resolution_start_by_id(
    config: Seq<SectionView>,
    attendee_id: u32,
) -> ResolutionView {
    match option_value(config, "gender_question_id"@) {
        None => ResolutionView::Unreadable,
        Some(gender_question_id) => ResolutionView::Ask(
            AwaitingView::IdentityOf { attendee_id },
            QuestionView::Attendee { attendee_id, gender_question_id },
        ),
    }
}

/// The gender that an answer names.
pub open spec fn gender_named(name: Seq<char>) -> Option<AttendeeGender> {
    if name == "Male"@ {
        Some(AttendeeGender::M)
    } else if name == "Female"@ {
        Some(AttendeeGender::F)
    } else {
        None
    }
}

/// The global option that lists the sport questions put to a gender.
pub open spec fn sport_questions_option(gender: AttendeeGender) -> Seq<char> {
    match gender {
        AttendeeGender::M => "male_sport_question_ids"@,
        AttendeeGender::F => "female_sport_question_ids"@,
    }
}

/// The gender that an answer names, if it names one.
pub fn parse_gender(name: &str) -> (gender: Option<AttendeeGender>)
    ensures
        gender == gender_named(name@),
{
    if same_text(name, "Male") {
        Some(AttendeeGender::M)
    } else if same_text(name, "Female") {
        Some(AttendeeGender::F)
    } else {
        None
    }
}

/// The global option that lists the sport questions put to a gender.
pub fn sport_questions_name(gender: AttendeeGender) -> (name: &'static str)
    ensures
        name@ == sport_questions_option(gender),
{
    match gender {
        AttendeeGender::M => "male_sport_question_ids",
        AttendeeGender::F => "female_sport_question_ids",
    }
}

/// How a resolution goes on once the attendee is identified: the name of the
/// gender is read, and the sports are asked for that were declared in answer to
/// the questions put to that gender. Any other name than `Male` and `Female`
/// is fatal: no gender is guessed, and nothing more is asked.
pub open spec fn resolution_identified(
    config: Seq<SectionView>,
    attendee_id: u32,
    ticket_id: u32,
    gender_name: Seq<char>,
) -> ResolutionView {
    match gender_named(gender_name) {
        None => ResolutionView::Fatal("Gender name unknown '"@ + gender_name + "'"@),
        Some(gender) => match option_value(config, sport_questions_option(gender)) {
            None => ResolutionView::Unreadable,
            Some(question_ids) => ResolutionView::Ask(
                AwaitingView::Sports { attendee_id, ticket_id, gender },
                QuestionView::Sports { attendee_id, question_ids },
            ),
        },
    }
}

/// The team sports among the first `upto` answers, in the order of the
/// answers: each distinct answer counts once, where it first stands, and
/// an answer that names no configured sport is passed over.
pub open spec fn declared_sports(
    config: Seq<SectionView>,
    gender: AttendeeGender,
    answers: Seq<Seq<char>>,
    upto: int,
) -> Seq<SportView>
    decreases upto,
{
    if upto <= 0 {
        Seq::empty()
    } else {
        let earlier = declared_sports(config, gender, answers, upto - 1);
        if seen_before(answers, upto - 1) {
            earlier
        } else {
            match sport_lookup(config, answers[upto - 1], Some(gender)) {
                SportOutcome::Found(rules) => earlier.push(rules),
                _ => earlier,
            }
        }
    }
}

/// Whether the configuration can be read for every answer.
pub open spec fn readable_answers(
    config: Seq<SectionView>,
    gender: AttendeeGender,
    answers: Seq<Seq<char>>,
) -> bool {
    forall|i: int|
        0 <= i < answers.len() ==> !(sport_lookup(config, #[trigger] answers[i], Some(gender))
            is Malformed)
}

/// The team sports that an attendee declared, given the answers to the
/// `SportsQuery`. `None` where the configuration cannot be read for one of the
/// answers.
pub fn attendee_sports(config: &Config, gender: AttendeeGender, answers: &Vec<String>) -> (sports:
    Option<Vec<Sport>>)
    ensures
        match sports {
            Some(list) => readable_answers(config@, gender, text_views(answers@)) && sport_views(
                list@,
            ) == declared_sports(config@, gender, text_views(answers@), answers@.len() as int),
            None => !readable_answers(config@, gender, text_views(answers@)),
        },
{
    let mut list: Vec<Sport> = Vec::new();
    let mut i: usize = 0;
    let ghost texts = text_views(answers@);
    assert(sport_views(list@) =~= declared_sports(config@, gender, texts, 0));
    while i < answers.len()
        invariant
            i <= answers.len(),
            texts == text_views(answers@),
            forall|j: int|
                0 <= j < i ==> !(sport_lookup(config@, #[trigger] texts[j], Some(gender))
                    is Malformed),
            sport_views(list@) == declared_sports(config@, gender, texts, i as int),
        decreases answers.len() - i,
    {
        if !occurs_before(answers, i) {
            match lookup_sport(config, answers[i].as_str(), Some(gender)) {
                SportLookup::Found(rules) => {
                    let ghost before = list@;
                    list.push(rules);
                    assert(sport_views(list@) =~= sport_views(before).push(rules@));
                },
                SportLookup::Rejected(_) => {},
                SportLookup::Malformed => {
                    assert(sport_lookup(config@, texts[i as int], Some(gender)) is Malformed);
                    return None;
                },
            }
        } else {
            let ghost j = choose|j: int| 0 <= j < i && #[trigger] texts[j] == texts[i as int];
            assert(sport_lookup(config@, texts[j], Some(gender)) == sport_lookup(
                config@,
                texts[i as int],
                Some(gender),
            ));
        }
        i += 1;
    }
    Some(list)
}

/// Every team sport that an attendee is found to have declared is what the
/// configuration says of one of the answers for the attendee's gender, and its
/// policy admits that gender.
pub proof fn lemma_declared_sports_fit(
    config: Seq<SectionView>,
    gender: AttendeeGender,
    answers: Seq<Seq<char>>,
    upto: int,
)
    requires
        0 <= upto <= answers.len(),
    ensures
        forall|k: int|
            0 <= k < declared_sports(config, gender, answers, upto).len() ==> gender_admitted(
                (#[trigger] declared_sports(config, gender, answers, upto)[k]).gender,
                gender,
            ) && exists|i: int|
                0 <= i < upto && sport_lookup(config, #[trigger] answers[i], Some(gender))
                    == SportOutcome::Found(declared_sports(config, gender, answers, upto)[k]),
    decreases upto,
{
    if upto > 0 {
        lemma_declared_sports_fit(config, gender, answers, upto - 1);
        let earlier = declared_sports(config, gender, answers, upto - 1);
        let all = declared_sports(config, gender, answers, upto);
        assert forall|k: int| 0 <= k < all.len() implies gender_admitted(
            (#[trigger] all[k]).gender,
            gender,
        ) && exists|i: int|
            0 <= i < upto && sport_lookup(config, #[trigger] answers[i], Some(gender))
                == SportOutcome::Found(all[k]) by {
            if k < earlier.len() {
                assert(all[k] == earlier[k]);
                let i = choose|i: int|
                    0 <= i < upto - 1 && sport_lookup(config, #[trigger] answers[i], Some(gender))
                        == SportOutcome::Found(earlier[k]);
                assert(0 <= i < upto && sport_lookup(config, answers[i], Some(gender))
                    == SportOutcome::Found(all[k]));
            } else {
                assert(sport_lookup(config, answers[upto - 1], Some(gender)) == SportOutcome::Found(
                    all[k],
                ));
                lemma_found_sport_admits(config, answers[upto - 1], gender);
            }
        }
    }
}

/// How a resolution that waits goes on with a reply. A reply of another kind
/// than the one awaited counts as a failure of the question. An attendee
/// without a school is fatal, as is a question for the school that fails.
pub open spec fn resolution_step(
    config: Seq<SectionView>,
    state: AwaitingView,
    reply: ReplyView,
) -> ResolutionView {
    match state {
        AwaitingView::Identity => match reply {
            ReplyView::Attendee(Some(row)) => resolution_identified(config, row.0, row.1, row.2),
            ReplyView::Attendee(None) => refused("Attendee not found"@),
            ReplyView::Failed(words) => refused("Error while retrieving attendee : "@ + words),
            _ => refused("Error while retrieving attendee : "@),
        },
        AwaitingView::IdentityOf { attendee_id } => match reply {
            ReplyView::Attendee(Some(row)) => resolution_identified(
                config,
                attendee_id,
                row.1,
                row.2,
            ),
            ReplyView::Attendee(None) => refused("Attendee not found"@),
            _ => refused("SQL error while getting attendee"@),
        },
        AwaitingView::Sports { attendee_id, ticket_id, gender } => match reply {
            ReplyView::Answers(answers) => if !readable_answers(config, gender, answers) {
                ResolutionView::Unreadable
            } else {
                match option_value(config, "school_question_id"@) {
                    None => ResolutionView::Unreadable,
                    Some(school_question_id) => ResolutionView::Ask(
                        AwaitingView::School {
                            attendee_id,
                            ticket_id,
                            gender,
                            sports: declared_sports(config, gender, answers, answers.len() as int),
                        },
                        QuestionView::School { attendee_id, school_question_id },
                    ),
                }
            },
            _ => refused("SQL error while retrieving attendee sports"@),
        },
        AwaitingView::School { attendee_id, ticket_id, gender, sports } => match reply {
            ReplyView::School(school_id) => ResolutionView::Done(
                Ok(AttendeeView { id: attendee_id, ticket_id, gender, sports, school_id }),
            ),
            _ => ResolutionView::Fatal("SQL error while retrieving attendee school"@),
        },
    }
}

/// Where a resolution stands after a reply; one that is over stays as it is.
pub open spec fn resolution_after(
    config: Seq<SectionView>,
    step: ResolutionView,
    reply: ReplyView,
) -> ResolutionView {
    match step {
        ResolutionView::Ask(state, _) => resolution_step(config, state, reply),
        _ => step,
    }
}

/// Where the resolution of an order reference stands after the replies to its
/// three questions, as far as they were asked.
pub open spec fn resolved(
    config: Seq<SectionView>,
    order_ref: Seq<char>,
    identity: ReplyView,
    answers: ReplyView,
    school: ReplyView,
) -> ResolutionView {
    resolution_after(
        config,
        resolution_after(
            config,
            resolution_after(config, resolution_start(config, order_ref), identity),
            answers,
        ),
        school,
    )
}

/// A resolution that is over without an attendee, with the given message.
fn refuse(message: &str) -> (step: Resolution)
    ensures
        step@ == refused(message@),
{
    Resolution::Done(Err(String::from_str(message)))
}

/// Starts resolving an order reference.
pub fn retrieve_attendee(config: &Config, order_ref: &str) -> (step: Resolution)
    ensures
        step@ == resolution_start(config@, order_ref@),
{
    if !is_order_reference(order_ref) {
        return refuse("Order reference invalid");
    }
    let parts = split_text(order_ref, '-');
    match find_option(config, "gender_question_id") {
        None => Resolution::Unreadable,
        Some(gender_question_id) => Resolution::Ask(
            Awaiting::Identity,
            Question::OrderLine {
                order_reference: parts[0].clone(),
                reference_index: parts[1].clone(),
                gender_question_id,
            },
        ),
    }
}

/// Starts resolving the id of an attendee.
pub fn get_attendee(config: &Config, attendee_id: u32) -> (step: Resolution)
    ensures
        step@ == resolution_start_by_id(config@, attendee_id),
{
    match find_option(config, "gender_question_id") {
        None => Resolution::Unreadable,
        Some(gender_question_id) => Resolution::Ask(
            Awaiting::IdentityOf { attendee_id },
            Question::Attendee { attendee_id, gender_question_id },
        ),
    }
}

/// Goes on with an attendee who is identified.
fn identified(config: &Config, attendee_id: u32, ticket_id: u32, gender_name: &str) -> (step:
    Resolution)
    ensures
        step@ == resolution_identified(config@, attendee_id, ticket_id, gender_name@),
{
    match parse_gender(gender_name) {
        None => Resolution::Fatal(join3("Gender name unknown '", gender_name, "'")),
        Some(gender) => match find_option(config, sport_questions_name(gender)) {
            None => Resolution::Unreadable,
            Some(question_ids) => Resolution::Ask(
                Awaiting::Sports { attendee_id, ticket_id, gender },
                Question::Sports { attendee_id, question_ids },
            ),
        },
    }
}

/// Goes on with a resolution that waits, given the reply to its question.
pub fn complete_attendee(config: &Config, state: Awaiting, reply: Reply) -> (step: Resolution)
    ensures
        step@ == resolution_step(config@, state@, reply@),
{
    match state {
        Awaiting::Identity => match reply {
            Reply::Attendee(Some(row)) => identified(
                config,
                row.attendee_id,
                row.ticket_id,
                row.gender_name.as_str(),
            ),
            Reply::Attendee(None) => refuse("Attendee not found"),
            Reply::Failed(words) => {
                let mut message = String::from_str("Error while retrieving attendee : ");
                message.append(words.as_str());
                Resolution::Done(Err(message))
            },
            _ => refuse("Error while retrieving attendee : "),
        },
        Awaiting::IdentityOf { attendee_id } => match reply {
            Reply::Attendee(Some(row)) => identified(
                config,
                attendee_id,
                row.ticket_id,
                row.gender_name.as_str(),
            ),
            Reply::Attendee(None) => refuse("Attendee not found"),
            _ => refuse("SQL error while getting attendee"),
        },
        Awaiting::Sports { attendee_id, ticket_id, gender } => match reply {
            Reply::Answers(answers) => match attendee_sports(config, gender, &answers) {
                None => Resolution::Unreadable,
                Some(sports) => match find_option(config, "school_question_id") {
                    None => Resolution::Unreadable,
                    Some(school_question_id) => Resolution::Ask(
                        Awaiting::School { attendee_id, ticket_id, gender, sports },
                        Question::School { attendee_id, school_question_id },
                    ),
                },
            },
            _ => refuse("SQL error while retrieving attendee sports"),
        },
        Awaiting::School { attendee_id, ticket_id, gender, sports } => match reply {
            Reply::School(school_id) => Resolution::Done(
                Ok(IdentifiedAttendee { id: attendee_id, ticket_id, gender, sports, school_id }),
            ),
            _ => Resolution::Fatal(
                String::from_str("SQL error while retrieving attendee school"),
            ),
        },
    }
}

/// A text that is no order reference is refused whatever the configuration
/// holds and whatever the ticketing data would reply: nothing is asked.
pub proof fn lemma_bad_reference_asks_nothing(
    config: Seq<SectionView>,
    order_ref: Seq<char>,
    identity: ReplyView,
    answers: ReplyView,
    school: ReplyView,
)
    requires
        encode_utf8(order_ref).len() > 12 || occurrences(order_ref, '-') != 1,
    ensures
        resolution_start(config, order_ref) == refused("Order reference invalid"@),
        resolved(config, order_ref, identity, answers, school) == refused(
            "Order reference invalid"@,
        ),
{
    lemma_reference_has_one_dash(order_ref);
}

/// What a resolution comes to where every question is answered: the attendee
/// of the row that was found, with the gender that the row names, the team
/// sports among the answers, and the school.
pub proof fn lemma_resolved_attendee(
    config: Seq<SectionView>,
    order_ref: Seq<char>,
    row: (u32, u32, Seq<char>),
    gender: AttendeeGender,
    answers: Seq<Seq<char>>,
    school_id: u32,
)
    requires
        well_formed_reference(order_ref),
        option_value(config, "gender_question_id"@) is Some,
        gender_named(row.2) == Some(gender),
        option_value(config, sport_questions_option(gender)) is Some,
        readable_answers(config, gender, answers),
        option_value(config, "school_question_id"@) is Some,
    ensures
        resolved(
            config,
            order_ref,
            ReplyView::Attendee(Some(row)),
            ReplyView::Answers(answers),
            ReplyView::School(school_id),
        ) == ResolutionView::Done(
            Ok(
                AttendeeView {
                    id: row.0,
                    ticket_id: row.1,
                    gender,
                    sports: declared_sports(config, gender, answers, answers.len() as int),
                    school_id,
                },
            ),
        ),
{
}

/// An attendee whose gender has a name other than `Male` and `Female` is never
/// resolved: the resolution ends as fatal, with a diagnostic that holds the
/// name, and neither the sports nor the school are asked for.
pub proof fn lemma_unknown_gender_is_fatal(
    config: Seq<SectionView>,
    order_ref: Seq<char>,
    row: (u32, u32, Seq<char>),
    answers: ReplyView,
    school: ReplyView,
)
    requires
        resolution_start(config, order_ref) is Ask,
        gender_named(row.2) is None,
    ensures
        resolution_after(
            config,
            resolution_start(config, order_ref),
            ReplyView::Attendee(Some(row)),
        ) == ResolutionView::Fatal("Gender name unknown '"@ + row.2 + "'"@),
        resolved(config, order_ref, ReplyView::Attendee(Some(row)), answers, school)
            == ResolutionView::Fatal("Gender name unknown '"@ + row.2 + "'"@),
{
}

/// An attendee for whom no school is found is never resolved: the resolution
/// ends as fatal.
pub proof fn lemma_absent_school_is_fatal(
    config: Seq<SectionView>,
    attendee_id: u32,
    ticket_id: u32,
    gender: AttendeeGender,
    sports: Seq<SportView>,
    reply: ReplyView,
)
    requires
        !(reply is School),
    ensures
        resolution_step(
            config,
            AwaitingView::School { attendee_id, ticket_id, gender, sports },
            reply,
        ) == ResolutionView::Fatal("SQL error while retrieving attendee school"@),
{
}

/// After the replies to its three questions a resolution is over.
pub proof fn lemma_three_questions_suffice(
    config: Seq<SectionView>,
    order_ref: Seq<char>,
    identity: ReplyView,
    answers: ReplyView,
    school: ReplyView,
)
    ensures
        !(resolved(config, order_ref, identity, answers, school) is Ask),
{
}

} // verus!
