//! The configuration: global options under `[main]`, and one section of rules
//! per sport.

use vstd::prelude::*;
use vstd::string::StringExecFns;
use crate::defs::{AttendeeGender, Sport, SportGender, SportView};
use crate::text::{boolean_word, decimal_u8, join3, parse_bool, parse_u8, same_text};

verus! {

/// One section of the configuration: its name, absent for what stands before
/// the first header, and its `key = value` lines in order.
#[derive(Clone, Debug)]
pub struct Section {
    pub name: Option<String>,
    pub entries: Vec<(String, String)>,
}

/// What a `Section` is.
pub ghost struct SectionView {
    pub name: Option<Seq<char>>,
    pub entries: Seq<(Seq<char>, Seq<char>)>,
}

/// The lines of a section, each as a pair of character sequences.
pub open spec fn entry_views(entries: Seq<(String, String)>) -> Seq<(Seq<char>, Seq<char>)> {
    Seq::new(entries.len(), |i: int| (entries[i].0@, entries[i].1@))
}

impl View for Section {
    type V = SectionView;

    open spec fn view(&self) -> SectionView {
        SectionView {
            name: match self.name {
                Some(n) => Some(n@),
                None => None,
            },
            entries: entry_views(self.entries@),
        }
    }
}

/// The views of a list of sections, in order.
pub open spec fn section_views(sections: Seq<Section>) -> Seq<SectionView> {
    Seq::new(sections.len(), |i: int| sections[i]@)
}

/// A configuration: its sections in the order of the file.
#[derive(Clone, Debug)]
pub struct Config {
    pub sections: Vec<Section>,
}

impl View for Config {
    type V = Seq<SectionView>;

    open spec fn view(&self) -> Seq<SectionView> {
        section_views(self.sections@)
    }
}

/// Why a configuration could not be read.
#[derive(Clone, Copy, PartialEq, Eq, Structural, Debug)]
pub enum ConfigError {
    /// The text is no INI document.
    Syntax,
}

/// The value of the first line with key `key` at or after line `from`.
pub open spec fn property_from(
    entries: Seq<(Seq<char>, Seq<char>)>,
    key: Seq<char>,
    from: int,
) -> Option<Seq<char>>
    decreases entries.len() - from,
{
    if from < 0 || from >= entries.len() {
        None
    } else if entries[from].0 == key {
        Some(entries[from].1)
    } else {
        property_from(entries, key, from + 1)
    }
}

/// The value of the first line with key `key`.
pub open spec fn property(entries: Seq<(Seq<char>, Seq<char>)>, key: Seq<char>) -> Option<
    Seq<char>,
> {
    property_from(entries, key, 0)
}

/// The index of the first section named `name` at or after `from`.
pub open spec fn section_from(config: Seq<SectionView>, name: Seq<char>, from: int) -> Option<int>
    decreases config.len() - from,
{
    if from < 0 || from >= config.len() {
        None
    } else if config[from].name == Some(name) {
        Some(from)
    } else {
        section_from(config, name, from + 1)
    }
}

/// The value of a global option: that of the first line with this key in the
/// first section named `main`.
pub open spec fn option_value(config: Seq<SectionView>, name: Seq<char>) -> Option<Seq<char>> {
    match section_from(config, "main"@, 0) {
        Some(i) => property(config[i].entries, name),
        None => None,
    }
}

/// The index of the first section at or after `from` that is named `name` and
/// says which kind of sport it is.
pub open spec fn sport_section_from(config: Seq<SectionView>, name: Seq<char>, from: int) -> Option<
    int,
>
    decreases config.len() - from,
{
    if from < 0 || from >= config.len() {
        None
    } else if config[from].name == Some(name) && property(config[from].entries, "gender"@) is Some {
        Some(from)
    } else {
        sport_section_from(config, name, from + 1)
    }
}

/// What a lookup of a sport comes to.
pub ghost enum SportOutcome {
    /// The rules of the sport for the gender asked for.
    Found(SportView),
    /// No such sport, or its section lacks something; with the message.
    Rejected(Seq<char>),
    /// A field that is read holds no number or no truth value.
    Malformed,
}

/// The message for a section without a team limit.
pub open spec fn missing_limit_message(name: Seq<char>) -> Seq<char> {
    "Missing max_teams_per_school in ["@ + name + "]"@
}

/// The message for a mixed sport without its two bounds.
pub open spec fn missing_mixed_message(name: Seq<char>) -> Seq<char> {
    "Missing fields under ["@ + name + "], it sould include fields 'min' and 'max'"@
}

/// The message for a strict sport without its four bounds.
pub open spec fn missing_strict_message(name: Seq<char>) -> Seq<char> {
    "Missing fields under ["@ + name
        + "], it sould include fields 'minM', 'maxM', 'maxF' and 'maxF'"@
}

/// The message for a strict sport asked for without a gender.
pub open spec fn gender_required_message(name: Seq<char>) -> Seq<char> {
    "Sport "@ + name + " is strict and attendee gender is required"@
}

/// The message for a section of an unknown kind.
pub open spec fn invalid_kind_message(name: Seq<char>, kind: Seq<char>) -> Seq<char> {
    "Invalid sport type under ["@ + name + "], is has to be either 'mixed' or 'strict' : '"@ + kind
        + "' is invalid"@
}

/// The message for a sport that no section describes.
pub open spec fn unknown_sport_message() -> Seq<char> {
    "Unknown error"@
}

/// The rules with the two bounds read from the given texts.
pub open spec fn bounded_sport(
    name: Seq<char>,
    min: Seq<char>,
    max: Seq<char>,
    gender: SportGender,
    limit: u8,
    mix: bool,
) -> SportOutcome {
    match (decimal_u8(min), decimal_u8(max)) {
        (Some(lo), Some(hi)) => SportOutcome::Found(
            SportView {
                name,
                min_players: lo,
                max_players: hi,
                gender,
                max_teams_per_school: limit,
                school_mix_allowed: mix,
            },
        ),
        _ => SportOutcome::Malformed,
    }
}

/// What the section of a sport says for a gender, its team limit and its
/// school policy already read.
pub open spec fn sport_of_kind(
    entries: Seq<(Seq<char>, Seq<char>)>,
    name: Seq<char>,
    gender: Option<AttendeeGender>,
    kind: Seq<char>,
    limit: u8,
    mix: bool,
) -> SportOutcome {
    if kind == "mixed"@ {
        match (property(entries, "min"@), property(entries, "max"@)) {
            (Some(min), Some(max)) => bounded_sport(name, min, max, SportGender::Mixed, limit, mix),
            _ => SportOutcome::Rejected(missing_mixed_message(name)),
        }
    } else if kind == "strict"@ {
        match (
            property(entries, "minM"@),
            property(entries, "maxM"@),
            property(entries, "minF"@),
            property(entries, "maxF"@),
        ) {
            (Some(min_m), Some(max_m), Some(min_f), Some(max_f)) => match gender {
                Some(AttendeeGender::M) => bounded_sport(
                    name,
                    min_m,
                    max_m,
                    SportGender::M,
                    limit,
                    mix,
                ),
                Some(AttendeeGender::F) => bounded_sport(
                    name,
                    min_f,
                    max_f,
                    SportGender::F,
                    limit,
                    mix,
                ),
                None => SportOutcome::Rejected(gender_required_message(name)),
            },
            _ => SportOutcome::Rejected(missing_strict_message(name)),
        }
    } else {
        SportOutcome::Rejected(invalid_kind_message(name, kind))
    }
}

/// What a section that names its kind says of the sport `name` for a gender.
/// The team limit is read first, then the school policy, which is `false`
/// where the section is silent, then the bounds that the kind asks for.
pub open spec fn sport_of_section(
    entries: Seq<(Seq<char>, Seq<char>)>,
    name: Seq<char>,
    gender: Option<AttendeeGender>,
) -> SportOutcome {
    match property(entries, "max_teams_per_school"@) {
        None => SportOutcome::Rejected(missing_limit_message(name)),
        Some(limit_text) => match decimal_u8(limit_text) {
            None => SportOutcome::Malformed,
            Some(limit) => {
                let mix = match property(entries, "school_mix_allowed"@) {
                    None => Some(false),
                    Some(word) => boolean_word(word),
                };
                match (mix, property(entries, "gender"@)) {
                    (Some(mix), Some(kind)) => sport_of_kind(entries, name, gender, kind, limit, mix),
                    _ => SportOutcome::Malformed,
                }
            },
        },
    }
}

/// What the configuration says of the sport `name` for a gender: the rules of
/// the first section of that name which says its kind.
pub open spec fn sport_lookup(
    config: Seq<SectionView>,
    name: Seq<char>,
    gender: Option<AttendeeGender>,
) -> SportOutcome {
    match sport_section_from(config, name, 0) {
        Some(i) => sport_of_section(config[i].entries, name, gender),
        None => SportOutcome::Rejected(unknown_sport_message()),
    }
}

/// The result of looking a sport up.
#[derive(Clone, Debug)]
pub enum SportLookup {
    /// The rules of the sport for the gender asked for.
    Found(Sport),
    /// No such sport, or its section lacks something; with the message.
    Rejected(String),
    /// A field that is read holds no number or no truth value.
    Malformed,
}

impl View for SportLookup {
    type V = SportOutcome;

    open spec fn view(&self) -> SportOutcome {
        match self {
            SportLookup::Found(sport) => SportOutcome::Found(sport@),
            SportLookup::Rejected(message) => SportOutcome::Rejected(message@),
            SportLookup::Malformed => SportOutcome::Malformed,
        }
    }
}

/// The sections that `ini::Ini::load_from_str` reads from a text, in the order
/// in which `Ini::iter` walks them, each with its lines in the order of
/// `Properties::iter`; `None` where the text is refused.
pub uninterp spec fn ini_sections(text: Seq<char>) -> Option<Seq<SectionView>>;

/// `ini::ParseError`, the reason for which a text is refused; it is carried
/// through unread.
#[verifier::external_type_specification]
#[verifier::external_body]
pub struct ExParseError(ini::ParseError);

/// `ini::Ini::load_from_str`, the document copied out section by section and
/// line by line. The parser reads the characters and nothing else, and keeps
/// sections and lines in lists, so the result is a function of the text; the
/// contract gives it its name.
#[verifier::external_body]
fn load_sections(text: &str) -> (loaded: Result<Vec<Section>, ini::ParseError>)
    ensures
        match loaded {
            Ok(sections) => ini_sections(text@) == Some(section_views(sections@)),
            Err(_) => ini_sections(text@) is None,
        },
{
    let document = ini::Ini::load_from_str(text)?;
    Ok(document.iter().map(|(name, lines)| Section {
        name: name.map(String::from),
        entries: lines.iter().map(|(key, value)| (String::from(key), String::from(value))).collect(),
    }).collect())
}

impl Section {
    /// The value of the first line with the given key.
    pub fn get(&self, key: &str) -> (value: Option<&String>)
        ensures
            match value {
                Some(v) => property(self@.entries, key@) == Some(v@),
                None => property(self@.entries, key@) is None,
            },
    {
        let mut i: usize = 0;
        while i < self.entries.len()
            invariant
                i <= self.entries.len(),
                property(self@.entries, key@) == property_from(self@.entries, key@, i as int),
            decreases self.entries.len() - i,
        {
            if same_text(self.entries[i].0.as_str(), key) {
                return Some(&self.entries[i].1);
            }
            i += 1;
        }
        None
    }

    /// Whether the section bears the given name.
    pub fn is_named(&self, name: &str) -> (named: bool)
        ensures
            named == (self@.name == Some(name@)),
    {
        match &self.name {
            Some(n) => same_text(n.as_str(), name),
            None => false,
        }
    }
}

impl Config {
    /// Reads a configuration from the text of an INI document.
    pub fn read(text: &str) -> (parsed: Result<Config, ConfigError>)
        ensures
            match parsed {
                Ok(config) => ini_sections(text@) == Some(config@),
                Err(e) => e == ConfigError::Syntax && ini_sections(text@) is None,
            },
    {
        match load_sections(text) {
            Ok(sections) => Ok(Config { sections }),
            Err(_) => Err(ConfigError::Syntax),
        }
    }
}

/// The rules with the two bounds read from the given texts.
fn bounded(name: &str, min: &str, max: &str, gender: SportGender, limit: u8, mix: bool) -> (found:
    SportLookup)
    ensures
        found@ == bounded_sport(name@, min@, max@, gender, limit, mix),
{
    match (parse_u8(min), parse_u8(max)) {
        (Some(lo), Some(hi)) => SportLookup::Found(
            Sport {
                name: String::from_str(name),
                min_players: lo,
                max_players: hi,
                gender,
                max_teams_per_school: limit,
                school_mix_allowed: mix,
            },
        ),
        _ => SportLookup::Malformed,
    }
}

/// Reads the bounds that the kind of the sport asks for.
fn describe_kind(
    section: &Section,
    name: &str,
    gender: Option<AttendeeGender>,
    kind: &str,
    limit: u8,
    mix: bool,
) -> (found: SportLookup)
    ensures
        found@ == sport_of_kind(section@.entries, name@, gender, kind@, limit, mix),
{
    if same_text(kind, "mixed") {
        match (section.get("min"), section.get("max")) {
            (Some(min), Some(max)) => bounded(
                name,
                min.as_str(),
                max.as_str(),
                SportGender::Mixed,
                limit,
                mix,
            ),
            _ => SportLookup::Rejected(
                join3("Missing fields under [", name, "], it sould include fields 'min' and 'max'"),
            ),
        }
    } else if same_text(kind, "strict") {
        match (section.get("minM"), section.get("maxM"), section.get("minF"), section.get("maxF")) {
            (Some(min_m), Some(max_m), Some(min_f), Some(max_f)) => match gender {
                Some(AttendeeGender::M) => bounded(
                    name,
                    min_m.as_str(),
                    max_m.as_str(),
                    SportGender::M,
                    limit,
                    mix,
                ),
                Some(AttendeeGender::F) => bounded(
                    name,
                    min_f.as_str(),
                    max_f.as_str(),
                    SportGender::F,
                    limit,
                    mix,
                ),
                None => SportLookup::Rejected(
                    join3("Sport ", name, " is strict and attendee gender is required"),
                ),
            },
            _ => SportLookup::Rejected(
                join3(
                    "Missing fields under [",
                    name,
                    "], it sould include fields 'minM', 'maxM', 'maxF' and 'maxF'",
                ),
            ),
        }
    } else {
        let mut message = join3(
            "Invalid sport type under [",
            name,
            "], is has to be either 'mixed' or 'strict' : '",
        );
        message.append(kind);
        message.append("' is invalid");
        SportLookup::Rejected(message)
    }
}

/// Reads the rules of a sport from its section.
fn describe_section(section: &Section, name: &str, gender: Option<AttendeeGender>) -> (found:
    SportLookup)
    ensures
        found@ == sport_of_section(section@.entries, name@, gender),
{
    let limit = match section.get("max_teams_per_school") {
        None => {
            return SportLookup::Rejected(join3("Missing max_teams_per_school in [", name, "]"));
        },
        Some(limit_text) => match parse_u8(limit_text.as_str()) {
            None => {
                return SportLookup::Malformed;
            },
            Some(limit) => limit,
        },
    };
    let mix = match section.get("school_mix_allowed") {
        None => false,
        Some(word) => match parse_bool(word.as_str()) {
            None => {
                return SportLookup::Malformed;
            },
            Some(mix) => mix,
        },
    };
    match section.get("gender") {
        Some(kind) => describe_kind(section, name, gender, kind.as_str(), limit, mix),
        None => SportLookup::Malformed,
    }
}

/// Looks a sport up for a gender, whatever the configuration holds.
pub fn lookup_sport(config: &Config, sport: &str, gender: Option<AttendeeGender>) -> (found:
    SportLookup)
    ensures
        found@ == sport_lookup(config@, sport@, gender),
{
    let mut i: usize = 0;
    while i < config.sections.len()
        invariant
            i <= config.sections.len(),
            sport_section_from(config@, sport@, 0) == sport_section_from(config@, sport@, i as int),
        decreases config.sections.len() - i,
    {
        let section = &config.sections[i];
        if section.is_named(sport) {
            if section.get("gender").is_some() {
                return describe_section(section, sport, gender);
            }
        }
        i += 1;
    }
    SportLookup::Rejected(String::from_str("Unknown error"))
}

/// The rules of a sport for a gender, or the message that says why there are
/// none. Not for a configuration whose fields for this sport cannot be read as
/// numbers: `lookup_sport` tells.
pub fn find_sport(config: &Config, sport: &str, gender: Option<AttendeeGender>) -> (found: Result<
    Sport,
    String,
>)
    requires
        !(sport_lookup(config@, sport@, gender) is Malformed),
    ensures
        match found {
            Ok(rules) => sport_lookup(config@, sport@, gender) == SportOutcome::Found(rules@),
            Err(message) => sport_lookup(config@, sport@, gender) == SportOutcome::Rejected(
                message@,
            ),
        },
{
    match lookup_sport(config, sport, gender) {
        SportLookup::Found(rules) => Ok(rules),
        SportLookup::Rejected(message) => Err(message),
        SportLookup::Malformed => vstd::pervasive::unreached(),
    }
}

/// The two kinds of sport are spelled differently.
proof fn lemma_kinds_differ()
    ensures
        "strict"@ != "mixed"@,
{
    reveal_strlit("strict");
    reveal_strlit("mixed");
    assert("strict"@.len() == 6);
    assert("mixed"@.len() == 5);
}

/// A strict sport whose section is complete carries, for each gender, that
/// gender as its policy and that gender's own pair of bounds; asked for without
/// a gender it is never found.
pub proof fn lemma_strict_sport(
    config: Seq<SectionView>,
    name: Seq<char>,
    section: int,
    limit: u8,
    mix: bool,
    bounds: (u8, u8, u8, u8),
)
    requires
        sport_section_from(config, name, 0) == Some(section),
        property(config[section].entries, "gender"@) == Some("strict"@),
        property(config[section].entries, "max_teams_per_school"@) is Some,
        decimal_u8(property(config[section].entries, "max_teams_per_school"@).unwrap()) == Some(
            limit,
        ),
        match property(config[section].entries, "school_mix_allowed"@) {
            None => !mix,
            Some(word) => boolean_word(word) == Some(mix),
        },
        property(config[section].entries, "minM"@) is Some,
        property(config[section].entries, "maxM"@) is Some,
        property(config[section].entries, "minF"@) is Some,
        property(config[section].entries, "maxF"@) is Some,
        decimal_u8(property(config[section].entries, "minM"@).unwrap()) == Some(bounds.0),
        decimal_u8(property(config[section].entries, "maxM"@).unwrap()) == Some(bounds.1),
        decimal_u8(property(config[section].entries, "minF"@).unwrap()) == Some(bounds.2),
        decimal_u8(property(config[section].entries, "maxF"@).unwrap()) == Some(bounds.3),
    ensures
        sport_lookup(config, name, Some(AttendeeGender::M)) == SportOutcome::Found(
            SportView {
                name,
                min_players: bounds.0,
                max_players: bounds.1,
                gender: SportGender::M,
                max_teams_per_school: limit,
                school_mix_allowed: mix,
            },
        ),
        sport_lookup(config, name, Some(AttendeeGender::F)) == SportOutcome::Found(
            SportView {
                name,
                min_players: bounds.2,
                max_players: bounds.3,
                gender: SportGender::F,
                max_teams_per_school: limit,
                school_mix_allowed: mix,
            },
        ),
        !(sport_lookup(config, name, None) is Found),
{
    lemma_kinds_differ();
}

/// Whatever its section holds, a strict sport is never found without a gender,
/// and found for a gender it has that gender as its policy.
pub proof fn lemma_strict_needs_gender(
    config: Seq<SectionView>,
    name: Seq<char>,
    section: int,
    gender: AttendeeGender,
)
    requires
        sport_section_from(config, name, 0) == Some(section),
        property(config[section].entries, "gender"@) == Some("strict"@),
    ensures
        !(sport_lookup(config, name, None) is Found),
        sport_lookup(config, name, Some(gender)) matches SportOutcome::Found(rules)
            ==> rules.gender == match gender {
            AttendeeGender::M => SportGender::M,
            AttendeeGender::F => SportGender::F,
        },
{
    lemma_kinds_differ();
}

/// A sport that is found for a gender admits that gender: its policy is
/// `Mixed` or the gender itself.
pub proof fn lemma_found_sport_admits(config: Seq<SectionView>, name: Seq<char>, gender: AttendeeGender)
    ensures
        sport_lookup(config, name, Some(gender)) matches SportOutcome::Found(rules) ==> rules.gender
            == SportGender::Mixed || rules.gender == match gender {
            AttendeeGender::M => SportGender::M,
            AttendeeGender::F => SportGender::F,
        },
{
}

/// A mixed sport, where it is found, has the policy `Mixed`, whatever gender
/// was asked for.
pub proof fn lemma_mixed_sport(
    config: Seq<SectionView>,
    name: Seq<char>,
    section: int,
    gender: Option<AttendeeGender>,
)
    requires
        sport_section_from(config, name, 0) == Some(section),
        property(config[section].entries, "gender"@) == Some("mixed"@),
    ensures
        sport_lookup(config, name, gender) matches SportOutcome::Found(rules) ==> rules.gender
            == SportGender::Mixed,
        sport_lookup(config, name, gender) == sport_lookup(config, name, None),
{
}

/// The value of a global option, if the configuration has it.
pub fn find_option(config: &Config, opt_name: &str) -> (value: Option<String>)
    ensures
        match value {
            Some(v) => option_value(config@, opt_name@) == Some(v@),
            None => option_value(config@, opt_name@) is None,
        },
{
    let mut i: usize = 0;
    while i < config.sections.len()
        invariant
            i <= config.sections.len(),
            section_from(config@, "main"@, 0) == section_from(config@, "main"@, i as int),
        decreases config.sections.len() - i,
    {
        if config.sections[i].is_named("main") {
            return match config.sections[i].get(opt_name) {
                Some(v) => Some(v.clone()),
                None => None,
            };
        }
        i += 1;
    }
    None
}

/// The value of a global option that the configuration has.
pub fn get_option(config: &Config, opt_name: &str) -> (value: String)
    requires
        option_value(config@, opt_name@) is Some,
    ensures
        option_value(config@, opt_name@) == Some(value@),
{
    match find_option(config, opt_name) {
        Some(v) => v,
        None => String::new(),
    }
}

} // verus!
