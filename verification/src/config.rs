//! The settings that the threshold engine and the event encoder read.

use vstd::prelude::*;
use vstd::utf8::encode_utf8;
use crate::decimal::{decimal_value, parse_decimal};
use crate::level::{threshold_of, threshold_of_bits};

verus! {

/// The settings of one run.
///
/// Thresholds are in level units, durations in milliseconds. Thresholds may
/// be negative: a level, never negative itself, then always exceeds them.
pub struct Config {
    /// The network target, as `host:port` text.
    pub address: String,
    /// OSC address of the left ear.
    pub address_left: String,
    /// OSC address of the right ear.
    pub address_right: String,
    /// OSC address of the overwhelm signal.
    pub address_overwhelmingly_loud: String,
    /// By how much one channel must exceed the other to count as the louder.
    pub differential_threshold: i64,
    /// The level a channel must exceed to matter at all.
    pub volume_threshold: i64,
    /// The level from which a channel counts as overwhelming.
    pub excessive_volume_threshold: i64,
    /// How long an "on" state must have lasted before "off" may be sent.
    pub reset_timeout: u64,
    /// The least spacing between two "on" signals of one channel.
    pub timeout: u64,
}

impl Config {
    /// The settings of a run, put together from those of a configuration
    /// file.
    ///
    /// The addresses are taken as they stand. The thresholds are given apart,
    /// each as the bit pattern of a single-precision number, and become
    /// levels. The two durations are read from the file's text, which spells
    /// them in milliseconds; the first that is no whole number is reported.
    pub fn assemble(
        text: &ConfigText,
        differential_threshold: u32,
        volume_threshold: u32,
        excessive_volume_threshold: u32,
    ) -> (outcome: Result<Config, ConfigError>)
        ensures
            match outcome {
                Ok(config) => {
                    &&& config.address@ == text.address@
                    &&& config.address_left@ == text.address_left@
                    &&& config.address_right@ == text.address_right@
                    &&& config.address_overwhelmingly_loud@ == text.address_overwhelmingly_loud@
                    &&& config.differential_threshold == threshold_of(differential_threshold)
                    &&& config.volume_threshold == threshold_of(volume_threshold)
                    &&& config.excessive_volume_threshold == threshold_of(
                        excessive_volume_threshold,
                    )
                    &&& decimal_value(encode_utf8(text.reset_timeout_ms@)) == Some(
                        config.reset_timeout,
                    )
                    &&& decimal_value(encode_utf8(text.timeout_ms@)) == Some(config.timeout)
                },
                Err(error) => if decimal_value(encode_utf8(text.reset_timeout_ms@)) is None {
                    error == ConfigError::Unparsable(Key::ResetTimeoutMs)
                } else {
                    &&& decimal_value(encode_utf8(text.timeout_ms@)) is None
                    &&& error == ConfigError::Unparsable(Key::TimeoutMs)
                },
            },
    {
        let reset_timeout = match parse_decimal(text.reset_timeout_ms.as_str()) {
            Some(milliseconds) => milliseconds,
            None => {
                return Err(ConfigError::Unparsable(Key::ResetTimeoutMs));
            },
        };
        let timeout = match parse_decimal(text.timeout_ms.as_str()) {
            Some(milliseconds) => milliseconds,
            None => {
                return Err(ConfigError::Unparsable(Key::TimeoutMs));
            },
        };
        Ok(
            Config {
                address: text.address.clone(),
                address_left: text.address_left.clone(),
                address_right: text.address_right.clone(),
                address_overwhelmingly_loud: text.address_overwhelmingly_loud.clone(),
                differential_threshold: threshold_of_bits(differential_threshold),
                volume_threshold: threshold_of_bits(volume_threshold),
                excessive_volume_threshold: threshold_of_bits(excessive_volume_threshold),
                reset_timeout,
                timeout,
            },
        )
    }
}

/// One of the two sections that a configuration file must have.
#[derive(Clone, Copy, Debug, PartialEq, Eq, Structural)]
pub enum Section {
    Connection,
    Audio,
}

/// One of the nine settings that a configuration file must give.
#[derive(Clone, Copy, Debug, PartialEq, Eq, Structural)]
pub enum Key {
    Address,
    OscAddressLeft,
    OscAddressRight,
    OscAddressOverwhelminglyLoud,
    DifferentialThreshold,
    VolumeThreshold,
    ExcessiveVolumeThreshold,
    ResetTimeoutMs,
    TimeoutMs,
}

/// Where and why a text stops being an INI document.
#[derive(Debug, PartialEq, Eq)]
pub struct SyntaxError {
    /// The line at which the text was given up.
    pub line: usize,
    /// The column in that line.
    pub col: usize,
    /// What was found wrong there.
    pub message: String,
}

/// Why a configuration file was turned down.
#[derive(Debug, PartialEq, Eq)]
pub enum ConfigError {
    /// The text is no INI document.
    Syntax(SyntaxError),
    /// The document lacks a section.
    MissingSection(Section),
    /// A section lacks a setting.
    MissingKey(Key),
    /// A setting does not say what it is to say.
    Unparsable(Key),
}

/// The settings as a configuration file spells them, each one still text.
pub struct ConfigText {
    pub address: String,
    pub address_left: String,
    pub address_right: String,
    pub address_overwhelmingly_loud: String,
    pub differential_threshold: String,
    pub volume_threshold: String,
    pub excessive_volume_threshold: String,
    pub reset_timeout_ms: String,
    pub timeout_ms: String,
}

impl Section {
    /// The section's name in the file.
    pub open spec fn spec_name(self) -> Seq<char> {
        match self {
            Section::Connection => "connection"@,
            Section::Audio => "audio"@,
        }
    }

    /// The section's name in the file.
    pub fn name(&self) -> (name: &'static str)
        ensures
            name@ == self.spec_name(),
    {
        match self {
            Section::Connection => "connection",
            Section::Audio => "audio",
        }
    }
}

impl Key {
    /// The section in which the setting stands.
    pub open spec fn spec_section(self) -> Section {
        match self {
            Key::Address
            | Key::OscAddressLeft
            | Key::OscAddressRight
            | Key::OscAddressOverwhelminglyLoud => Section::Connection,
            _ => Section::Audio,
        }
    }

    /// The setting's name in the file.
    pub open spec fn spec_name(self) -> Seq<char> {
        match self {
            Key::Address => "address"@,
            Key::OscAddressLeft => "osc_address_left"@,
            Key::OscAddressRight => "osc_address_right"@,
            Key::OscAddressOverwhelminglyLoud => "osc_address_overwhelmingly_loud"@,
            Key::DifferentialThreshold => "differential_threshold"@,
            Key::VolumeThreshold => "volume_threshold"@,
            Key::ExcessiveVolumeThreshold => "excessive_volume_threshold"@,
            Key::ResetTimeoutMs => "reset_timeout_ms"@,
            Key::TimeoutMs => "timeout_ms"@,
        }
    }

    /// The section in which the setting stands.
    pub fn section(&self) -> (section: Section)
        ensures
            section == self.spec_section(),
    {
        match self {
            Key::Address
            | Key::OscAddressLeft
            | Key::OscAddressRight
            | Key::OscAddressOverwhelminglyLoud => Section::Connection,
            _ => Section::Audio,
        }
    }

    /// The setting's name in the file.
    pub fn name(&self) -> (name: &'static str)
        ensures
            name@ == self.spec_name(),
    {
        match self {
            Key::Address => "address",
            Key::OscAddressLeft => "osc_address_left",
            Key::OscAddressRight => "osc_address_right",
            Key::OscAddressOverwhelminglyLoud => "osc_address_overwhelmingly_loud",
            Key::DifferentialThreshold => "differential_threshold",
            Key::VolumeThreshold => "volume_threshold",
            Key::ExcessiveVolumeThreshold => "excessive_volume_threshold",
            Key::ResetTimeoutMs => "reset_timeout_ms",
            Key::TimeoutMs => "timeout_ms",
        }
    }
}

/// An INI document of the `rust-ini` crate.
#[verifier::external_type_specification]
#[verifier::external_body]
pub struct ExIni(ini::Ini);

/// The sections of a document, each by its name; `None` is the general
/// section, which has none.
pub uninterp spec fn ini_sections(ini: ini::Ini) -> Set<Option<Seq<char>>>;

/// The settings of a document: for each section and key that the document
/// holds, the first value that it gives the key there.
pub uninterp spec fn ini_values(ini: ini::Ini) -> Map<(Option<Seq<char>>, Seq<char>), Seq<char>>;

/// A section's name as the document's model has it.
pub open spec fn section_name(section: Option<&str>) -> Option<Seq<char>> {
    match section {
        Some(name) => Some(name@),
        None => None,
    }
}

/// The sections of a new document: the general section alone.
pub open spec fn new_sections() -> Set<Option<Seq<char>>> {
    set![None]
}

/// The settings of a new document: none.
pub open spec fn new_values() -> Map<(Option<Seq<char>>, Seq<char>), Seq<char>> {
    Map::empty()
}

/// What a text spells: the sections and the settings of the document that
/// it is, or else the line, the column and the complaint with which it is
/// turned down.
pub uninterp spec fn ini_document(text: Seq<char>) -> Result<
    (Set<Option<Seq<char>>>, Map<(Option<Seq<char>>, Seq<char>), Seq<char>>),
    (usize, usize, Seq<char>),
>;

/// Whether `loaded` is `document` brought into being: a document with those
/// sections and settings, or an error with that place and complaint.
pub open spec fn is_loading_of(
    loaded: Result<ini::Ini, SyntaxError>,
    document: Result<
        (Set<Option<Seq<char>>>, Map<(Option<Seq<char>>, Seq<char>), Seq<char>>),
        (usize, usize, Seq<char>),
    >,
) -> bool {
    match (loaded, document) {
        (Ok(ini), Ok((sections, values))) => {
            &&& ini_sections(ini) == sections
            &&& ini_values(ini) == values
        },
        (Err(error), Err((line, col, message))) => {
            &&& error.line == line
            &&& error.col == col
            &&& error.message@ == message
        },
        _ => false,
    }
}

/// Calls `Ini::load_from_str`, and hands on the fields of its error.
///
/// Trusted: that what comes back depends on the text alone. The sections
/// and settings of the document, or the place and complaint of the error,
/// are what [`ini_document`] names for that text.
#[verifier::external_body]
fn ini_from_text(text: &str) -> (loaded: Result<ini::Ini, SyntaxError>)
    ensures
        is_loading_of(loaded, ini_document(text@)),
{
    match ini::Ini::load_from_str(text) {
        Ok(document) => Ok(document),
        Err(error) => Err(
            SyntaxError { line: error.line, col: error.col, message: error.msg.into_owned() },
        ),
    }
}

/// Calls `Ini::new`.
///
/// Trusted: that the new document holds the general section, empty, and
/// nothing else.
#[verifier::external_body]
fn ini_new() -> (document: ini::Ini)
    ensures
        ini_sections(document) == new_sections(),
        ini_values(document) == new_values(),
{
    ini::Ini::new()
}

/// Calls `Ini::with_section` and, on what it returns, `SectionSetter::set`.
///
/// Trusted: that the section is there afterwards, that the first value it
/// gives the key is this one, and that no other section or setting has
/// changed.
#[verifier::external_body]
fn ini_set(ini: &mut ini::Ini, section: Option<&str>, key: &str, value: &str)
    ensures
        ini_sections(*final(ini)) == ini_sections(*old(ini)).insert(section_name(section)),
        ini_values(*final(ini)) == ini_values(*old(ini)).insert(
            (section_name(section), key@),
            value@,
        ),
{
    ini.with_section(section).set(key, value);
}

/// Calls `Ini::section` with a section's name.
///
/// Trusted: that it returns a section exactly if the document has one of
/// that name.
#[verifier::external_body]
fn ini_has_section(ini: &ini::Ini, section: &str) -> (found: bool)
    ensures
        found == ini_sections(*ini).contains(Some(section@)),
{
    ini.section(Some(section)).is_some()
}

/// Calls `Ini::get_from` with a section's name and a key.
///
/// Trusted: that it returns the first value that the section of that name
/// gives the key, and nothing where the section or the key is missing.
#[verifier::external_body]
fn ini_get(ini: &ini::Ini, section: &str, key: &str) -> (value: Option<String>)
    ensures
        value is Some == ini_values(*ini).contains_key((Some(section@), key@)),
        value is Some ==> value->0@ == ini_values(*ini)[(Some(section@), key@)],
{
    ini.get_from(Some(section), key).map(String::from)
}

/// Where a setting stands in a document.
pub open spec fn place(key: Key) -> (Option<Seq<char>>, Seq<char>) {
    (Some(key.spec_section().spec_name()), key.spec_name())
}

impl ConfigText {
    /// The text of one setting.
    pub open spec fn value(&self, key: Key) -> Seq<char> {
        match key {
            Key::Address => self.address@,
            Key::OscAddressLeft => self.address_left@,
            Key::OscAddressRight => self.address_right@,
            Key::OscAddressOverwhelminglyLoud => self.address_overwhelmingly_loud@,
            Key::DifferentialThreshold => self.differential_threshold@,
            Key::VolumeThreshold => self.volume_threshold@,
            Key::ExcessiveVolumeThreshold => self.excessive_volume_threshold@,
            Key::ResetTimeoutMs => self.reset_timeout_ms@,
            Key::TimeoutMs => self.timeout_ms@,
        }
    }
}

/// What a document lacks, if anything: the first of the two sections that
/// is missing or else, in the order of [`Key`], the first setting.
pub open spec fn first_gap(
    sections: Set<Option<Seq<char>>>,
    values: Map<(Option<Seq<char>>, Seq<char>), Seq<char>>,
) -> Option<ConfigError> {
    if !sections.contains(Some(Section::Connection.spec_name())) {
        Some(ConfigError::MissingSection(Section::Connection))
    } else if !sections.contains(Some(Section::Audio.spec_name())) {
        Some(ConfigError::MissingSection(Section::Audio))
    } else if !values.contains_key(place(Key::Address)) {
        Some(ConfigError::MissingKey(Key::Address))
    } else if !values.contains_key(place(Key::OscAddressLeft)) {
        Some(ConfigError::MissingKey(Key::OscAddressLeft))
    } else if !values.contains_key(place(Key::OscAddressRight)) {
        Some(ConfigError::MissingKey(Key::OscAddressRight))
    } else if !values.contains_key(place(Key::OscAddressOverwhelminglyLoud)) {
        Some(ConfigError::MissingKey(Key::OscAddressOverwhelminglyLoud))
    } else if !values.contains_key(place(Key::DifferentialThreshold)) {
        Some(ConfigError::MissingKey(Key::DifferentialThreshold))
    } else if !values.contains_key(place(Key::VolumeThreshold)) {
        Some(ConfigError::MissingKey(Key::VolumeThreshold))
    } else if !values.contains_key(place(Key::ExcessiveVolumeThreshold)) {
        Some(ConfigError::MissingKey(Key::ExcessiveVolumeThreshold))
    } else if !values.contains_key(place(Key::ResetTimeoutMs)) {
        Some(ConfigError::MissingKey(Key::ResetTimeoutMs))
    } else if !values.contains_key(place(Key::TimeoutMs)) {
        Some(ConfigError::MissingKey(Key::TimeoutMs))
    } else {
        None
    }
}

/// Whether `outcome` is what reading the settings out of a document with
/// these sections and values gives: the first gap where there is one, else
/// every setting as the document spells it.
pub open spec fn is_reading_of(
    outcome: Result<ConfigText, ConfigError>,
    sections: Set<Option<Seq<char>>>,
    values: Map<(Option<Seq<char>>, Seq<char>), Seq<char>>,
) -> bool {
    match outcome {
        Ok(text) => first_gap(sections, values) is None && forall|key: Key|
            #[trigger] text.value(key) == values[place(key)],
        Err(error) => first_gap(sections, values) == Some(error),
    }
}

/// One setting of a document, or the error that says it is missing.
fn required(ini: &ini::Ini, key: Key) -> (value: Result<String, ConfigError>)
    ensures
        match value {
            Ok(text) => ini_values(*ini).contains_key(place(key)) && text@ == ini_values(
                *ini,
            )[place(key)],
            Err(error) => !ini_values(*ini).contains_key(place(key)) && error
                == ConfigError::MissingKey(key),
        },
{
    match ini_get(ini, key.section().name(), key.name()) {
        Some(text) => Ok(text),
        None => Err(ConfigError::MissingKey(key)),
    }
}

/// Reads the settings out of a document.
///
/// Both sections must be there, then every setting; the first that is
/// missing is reported. What a setting says is not looked at.
pub fn config_text_from_ini(ini: &ini::Ini) -> (outcome: Result<ConfigText, ConfigError>)
    ensures
        is_reading_of(outcome, ini_sections(*ini), ini_values(*ini)),
{
    if !ini_has_section(ini, Section::Connection.name()) {
        return Err(ConfigError::MissingSection(Section::Connection));
    }
    if !ini_has_section(ini, Section::Audio.name()) {
        return Err(ConfigError::MissingSection(Section::Audio));
    }
    let address = required(ini, Key::Address)?;
    let address_left = required(ini, Key::OscAddressLeft)?;
    let address_right = required(ini, Key::OscAddressRight)?;
    let address_overwhelmingly_loud = required(ini, Key::OscAddressOverwhelminglyLoud)?;
    let differential_threshold = required(ini, Key::DifferentialThreshold)?;
    let volume_threshold = required(ini, Key::VolumeThreshold)?;
    let excessive_volume_threshold = required(ini, Key::ExcessiveVolumeThreshold)?;
    let reset_timeout_ms = required(ini, Key::ResetTimeoutMs)?;
    let timeout_ms = required(ini, Key::TimeoutMs)?;
    Ok(
        ConfigText {
            address,
            address_left,
            address_right,
            address_overwhelmingly_loud,
            differential_threshold,
            volume_threshold,
            excessive_volume_threshold,
            reset_timeout_ms,
            timeout_ms,
        },
    )
}

/// The settings of the document that holds `text`: the encoding, the
/// version, and the nine settings, each in its section.
pub open spec fn saved_values(text: &ConfigText) -> Map<(Option<Seq<char>>, Seq<char>), Seq<char>> {
    new_values().insert((None, "encoding"@), "utf-8"@).insert(
        (Some("version"@), "version"@),
        "1.0"@,
    ).insert(place(Key::Address), text.address@).insert(
        place(Key::OscAddressLeft),
        text.address_left@,
    ).insert(place(Key::OscAddressRight), text.address_right@).insert(
        place(Key::OscAddressOverwhelminglyLoud),
        text.address_overwhelmingly_loud@,
    ).insert(place(Key::DifferentialThreshold), text.differential_threshold@).insert(
        place(Key::VolumeThreshold),
        text.volume_threshold@,
    ).insert(place(Key::ExcessiveVolumeThreshold), text.excessive_volume_threshold@).insert(
        place(Key::ResetTimeoutMs),
        text.reset_timeout_ms@,
    ).insert(place(Key::TimeoutMs), text.timeout_ms@)
}

/// The sections of such a document.
pub open spec fn saved_sections() -> Set<Option<Seq<char>>> {
    set![
        None,
        Some("version"@),
        Some(Section::Connection.spec_name()),
        Some(Section::Audio.spec_name()),
    ]
}

/// Writes one setting into a document.
fn put(ini: &mut ini::Ini, key: Key, value: &String)
    ensures
        ini_sections(*final(ini)) == ini_sections(*old(ini)).insert(
            Some(key.spec_section().spec_name()),
        ),
        ini_values(*final(ini)) == ini_values(*old(ini)).insert(place(key), value@),
{
    ini_set(ini, Some(key.section().name()), key.name(), value.as_str());
}

/// The document that holds `text`, as it is saved to a configuration file.
pub fn config_ini(text: &ConfigText) -> (document: ini::Ini)
    ensures
        ini_sections(document) == saved_sections(),
        ini_values(document) == saved_values(text),
{
    let mut document = ini_new();
    ini_set(&mut document, None, "encoding", "utf-8");
    ini_set(&mut document, Some("version"), "version", "1.0");
    put(&mut document, Key::Address, &text.address);
    put(&mut document, Key::OscAddressLeft, &text.address_left);
    put(&mut document, Key::OscAddressRight, &text.address_right);
    put(&mut document, Key::OscAddressOverwhelminglyLoud, &text.address_overwhelmingly_loud);
    put(&mut document, Key::DifferentialThreshold, &text.differential_threshold);
    put(&mut document, Key::VolumeThreshold, &text.volume_threshold);
    put(&mut document, Key::ExcessiveVolumeThreshold, &text.excessive_volume_threshold);
    put(&mut document, Key::ResetTimeoutMs, &text.reset_timeout_ms);
    put(&mut document, Key::TimeoutMs, &text.timeout_ms);
    assert(ini_sections(document) =~= saved_sections());
    document
}

/// The settings with which a configuration file is first written.
pub fn default_config_text() -> (text: ConfigText)
    ensures
        text.address@ == "127.0.0.1:9000"@,
        text.address_left@ == "/avatar/parameters/EarPerkLeft"@,
        text.address_right@ == "/avatar/parameters/EarPerkRight"@,
        text.address_overwhelmingly_loud@ == "/avatar/parameters/EarOverwhelm"@,
        text.differential_threshold@ == "0.01"@,
        text.volume_threshold@ == "0.2"@,
        text.excessive_volume_threshold@ == "0.5"@,
        text.reset_timeout_ms@ == "1000"@,
        text.timeout_ms@ == "100"@,
{
    ConfigText {
        address: "127.0.0.1:9000".to_owned(),
        address_left: "/avatar/parameters/EarPerkLeft".to_owned(),
        address_right: "/avatar/parameters/EarPerkRight".to_owned(),
        address_overwhelmingly_loud: "/avatar/parameters/EarOverwhelm".to_owned(),
        differential_threshold: "0.01".to_owned(),
        volume_threshold: "0.2".to_owned(),
        excessive_volume_threshold: "0.5".to_owned(),
        reset_timeout_ms: "1000".to_owned(),
        timeout_ms: "100".to_owned(),
    }
}

/// No two settings stand in the same place of a document.
pub proof fn places_are_distinct()
    ensures
        forall|one: Key, other: Key| one != other ==> place(one) != place(other),
{
    reveal_strlit("connection");
    reveal_strlit("audio");
    reveal_strlit("address");
    reveal_strlit("osc_address_left");
    reveal_strlit("osc_address_right");
    reveal_strlit("osc_address_overwhelmingly_loud");
    reveal_strlit("differential_threshold");
    reveal_strlit("volume_threshold");
    reveal_strlit("excessive_volume_threshold");
    reveal_strlit("reset_timeout_ms");
    reveal_strlit("timeout_ms");
    assert forall|one: Key, other: Key| one != other implies place(one) != place(other) by {
        if one.spec_section() == other.spec_section() {
            assert(one.spec_name().len() != other.spec_name().len() || one.spec_name()[0]
                != other.spec_name()[0]);
        } else {
            assert(one.spec_section().spec_name().len() != other.spec_section().spec_name().len());
        }
    }
}

/// What is saved is read back. Reading the settings out of the document
/// that holds `text` finds no gap and gives every setting as `text` has it.
pub proof fn saved_settings_read_back(text: &ConfigText, outcome: Result<ConfigText, ConfigError>)
    requires
        is_reading_of(outcome, saved_sections(), saved_values(text)),
    ensures
        outcome is Ok,
        forall|key: Key| #[trigger] outcome->Ok_0.value(key) == text.value(key),
{
    places_are_distinct();
    reveal_strlit("connection");
    reveal_strlit("audio");
    reveal_strlit("version");
    reveal_strlit("encoding");
    let values = saved_values(text);
    assert forall|key: Key| values.contains_key(place(key)) && #[trigger] values[place(key)]
        == text.value(key) by {
        assert(place(key).0 != Some("version"@)) by {
            assert(key.spec_section().spec_name().len() != "version"@.len());
        }
    }
    if let Ok(read) = outcome {
        assert forall|key: Key| #[trigger] read.value(key) == text.value(key) by {
            assert(read.value(key) == values[place(key)]);
        }
    }
}

/// The byte-order mark with which a UTF-8 file may start.
pub open spec fn byte_order_mark() -> Seq<u8> {
    seq![0xefu8, 0xbbu8, 0xbfu8]
}

/// What a file holds behind its byte-order mark, which is all of it where
/// the file starts with none.
pub open spec fn without_byte_order_mark(bytes: Seq<u8>) -> Seq<u8> {
    if bytes.len() >= 3 && bytes.subrange(0, 3) == byte_order_mark() {
        bytes.subrange(3, bytes.len() as int)
    } else {
        bytes
    }
}

/// Takes the byte-order mark off the contents of a configuration file.
pub fn strip_byte_order_mark(bytes: &[u8]) -> (rest: &[u8])
    ensures
        rest@ == without_byte_order_mark(bytes@),
{
    if bytes.len() >= 3 && bytes[0] == 0xef && bytes[1] == 0xbb && bytes[2] == 0xbf {
        assert(bytes@.subrange(0, 3) =~= byte_order_mark());
        vstd::slice::slice_subrange(bytes, 3, bytes.len())
    } else {
        proof {
            if bytes.len() >= 3 {
                let start = bytes@.subrange(0, 3);
                assert(start[0] == bytes[0] && start[1] == bytes[1] && start[2] == bytes[2]);
            }
        }
        bytes
    }
}

/// Whether `outcome` is what reading the settings out of a text gives,
/// `document` being what the text spells: the reading of the document, or
/// else the syntax error with its place and complaint.
pub open spec fn is_parsing_of(
    outcome: Result<ConfigText, ConfigError>,
    document: Result<
        (Set<Option<Seq<char>>>, Map<(Option<Seq<char>>, Seq<char>), Seq<char>>),
        (usize, usize, Seq<char>),
    >,
) -> bool {
    match document {
        Ok((sections, values)) => is_reading_of(outcome, sections, values),
        Err((line, col, message)) => {
            &&& outcome matches Err(ConfigError::Syntax(error))
            &&& error.line == line
            &&& error.col == col
            &&& error.message@ == message
        },
    }
}

/// Reads the settings out of the text of a configuration file.
///
/// Text that is no INI document is turned down as [`ConfigError::Syntax`],
/// which says where and why; the text of a document is read as
/// [`config_text_from_ini`] reads the document.
pub fn parse_config_ini(text: &str) -> (outcome: Result<ConfigText, ConfigError>)
    ensures
        is_parsing_of(outcome, ini_document(text@)),
{
    match ini_from_text(text) {
        Ok(ini) => config_text_from_ini(&ini),
        Err(error) => Err(ConfigError::Syntax(error)),
    }
}

} // verus!
