//! The bot's records in the key-value store: under which keys they lie and
//! how the values found there become settings. Reading and writing the
//! store is left to the caller.

use vstd::prelude::*;
use vstd::string::{StrSliceExecFns, StringExecFns};
use crate::configuration::{
    ChannelConfiguration, ChannelSettings, GuildConfiguration, GuildSettings, NsfwMode,
    TimeoutMode, empty_guild, no_signals,
};
use crate::text::{append_decimal, decimal, split_unicode_words, unicode_words, views};

verus! {

/// Why a record could not be read.
#[derive(Debug, Clone, Copy, PartialEq, Eq, Structural)]
pub enum StoreErrorKind {
    /// A field is missing, or holds no text where text is needed.
    NotFound,
    /// A field holds something that cannot be understood.
    Parse,
}

/// A record that could not be read: why, and a text that names the field.
#[derive(Debug)]
pub struct StoreError {
    pub kind: StoreErrorKind,
    pub details: String,
}

/// What the store holds for one field of a record.
#[derive(Debug)]
pub enum Stored<T> {
    /// The record has no such field.
    Missing,
    /// The field holds a value of another kind.
    Invalid,
    /// The field holds this value.
    Present(T),
}

/// The fields of a channel's record as the store holds them. The two
/// modes are stored by name.
#[derive(Debug)]
pub struct StoredChannel {
    pub active: Stored<bool>,
    pub timeout: Stored<u64>,
    pub timeout_mode: Stored<String>,
    pub nsfw_mode: Stored<String>,
    pub tags: Stored<Vec<String>>,
}

/// The key of the set of known guilds.
pub open spec fn known_guilds() -> Seq<char> {
    "e6bot::KNOWN_GUILDS"@
}

/// The key of the set of known channels of a guild.
pub open spec fn known_channels(guild: u64) -> Seq<char> {
    "e6bot::KNOWN_CHANNELS::"@ + decimal(guild as nat)
}

/// The key of the set of known messages of a channel.
pub open spec fn known_messages(channel: u64) -> Seq<char> {
    "e6bot::KNOWN_MESSAGES::"@ + decimal(channel as nat)
}

/// The key of a guild's record.
pub open spec fn guild_conf(guild: u64) -> Seq<char> {
    "e6bot::GUILD_CONF::"@ + decimal(guild as nat)
}

/// The key of a channel's record.
pub open spec fn channel_conf(channel: u64) -> Seq<char> {
    "e6bot::CHANNEL_CONF::"@ + decimal(channel as nat)
}

/// The key of the set of known guilds.
pub fn known_guilds_key() -> (key: String)
    ensures
        key@ == known_guilds(),
{
    String::from_str("e6bot::KNOWN_GUILDS")
}

/// The key of the set of known channels of `guild`.
pub fn known_channels_key(guild: u64) -> (key: String)
    ensures
        key@ == known_channels(guild),
{
    let mut key = String::from_str("e6bot::KNOWN_CHANNELS::");
    append_decimal(&mut key, guild);
    key
}

/// The key of the set of known messages of `channel`.
pub fn known_messages_key(channel: u64) -> (key: String)
    ensures
        key@ == known_messages(channel),
{
    let mut key = String::from_str("e6bot::KNOWN_MESSAGES::");
    append_decimal(&mut key, channel);
    key
}

/// The key of the record of `guild`.
pub fn guild_conf_key(guild: u64) -> (key: String)
    ensures
        key@ == guild_conf(guild),
{
    let mut key = String::from_str("e6bot::GUILD_CONF::");
    append_decimal(&mut key, guild);
    key
}

/// The key of the record of `channel`.
pub fn channel_conf_key(channel: u64) -> (key: String)
    ensures
        key@ == channel_conf(channel),
{
    let mut key = String::from_str("e6bot::CHANNEL_CONF::");
    append_decimal(&mut key, channel);
    key
}

/// True for the ten decimal digits.
pub open spec fn is_digit(c: char) -> bool {
    '0' <= c && c <= '9'
}

/// The value of a decimal digit.
pub open spec fn digit_value(c: char) -> nat {
    (c as u32 - '0' as u32) as nat
}

/// True if `text` holds digits only, and at least one.
pub open spec fn is_number(text: Seq<char>) -> bool {
    text.len() > 0 && forall|i: int| 0 <= i < text.len() ==> is_digit(#[trigger] text[i])
}

/// The number that a text of digits writes in base ten.
pub open spec fn number_value(text: Seq<char>) -> nat
    decreases text.len(),
{
    if text.len() == 0 {
        0
    } else {
        number_value(text.drop_last()) * 10 + digit_value(text.last())
    }
}

/// The digits of an identifier: the text without a plus sign in front.
pub open spec fn unsigned_part(text: Seq<char>) -> Seq<char> {
    if text.len() > 0 && text[0] == '+' {
        text.skip(1)
    } else {
        text
    }
}

/// The identifier that `text` writes: digits, with or without a plus sign
/// in front, whose value fits into 64 bits. Any other text writes none.
pub open spec fn parsed_id(text: Seq<char>) -> Option<u64> {
    let digits = unsigned_part(text);
    if is_number(digits) && number_value(digits) <= u64::MAX {
        Some(number_value(digits) as u64)
    } else {
        None
    }
}

proof fn lemma_value_grows(text: Seq<char>, k: int)
    requires
        0 <= k <= text.len(),
    ensures
        number_value(text.take(k)) <= number_value(text),
    decreases text.len() - k,
{
    if k < text.len() {
        lemma_value_grows(text, k + 1);
        assert(text.take(k + 1).drop_last() =~= text.take(k));
    } else {
        assert(text.take(k) =~= text);
    }
}

/// Reads an identifier.
pub fn parse_id(text: &str) -> (id: Option<u64>)
    ensures
        id == parsed_id(text@),
{
    let length = text.unicode_len();
    if length == 0 {
        return None;
    }
    let first = text.get_char(0);
    let start: usize = if first == '+' {
        1
    } else {
        0
    };
    let ghost digits = unsigned_part(text@);
    assert(digits =~= text@.skip(start as int));
    if start == length {
        return None;
    }
    let mut value: u64 = 0;
    let mut i: usize = start;
    while i < length
        invariant
            length == text@.len(),
            start <= i <= length,
            digits == text@.skip(start as int),
            digits == unsigned_part(text@),
            forall|j: int| 0 <= j < i - start ==> is_digit(#[trigger] digits[j]),
            value == number_value(digits.take(i - start)),
        decreases length - i,
    {
        let c = text.get_char(i);
        assert(digits[i - start] == c);
        if !('0' <= c && c <= '9') {
            assert(!is_digit(digits[i - start]));
            return None;
        }
        let d = (c as u32 - '0' as u32) as u64;
        proof {
            assert(digits.take(i - start + 1).drop_last() =~= digits.take(i - start));
            assert(digits.take(i - start + 1).last() == c);
            lemma_value_grows(digits, i - start + 1);
        }
        if value > (u64::MAX - d) / 10 {
            assert(number_value(digits.take(i - start + 1)) == value * 10 + d);
            assert(value * 10 + d > u64::MAX);
            return None;
        }
        value = value * 10 + d;
        i += 1;
    }
    assert(digits.take(i - start) =~= digits);
    Some(value)
}

/// The identifiers that the texts of a list write, if each writes one.
pub open spec fn parsed_ids(texts: Seq<Seq<char>>) -> Option<Seq<u64>> {
    if forall|i: int| 0 <= i < texts.len() ==> parsed_id(#[trigger] texts[i]) is Some {
        Some(Seq::new(texts.len(), |i: int| parsed_id(texts[i])->Some_0))
    } else {
        None
    }
}

/// The message of the error for a member that writes no identifier.
pub open spec fn bad_id_message() -> Seq<char> {
    "invalid identifier"@
}

/// Reads the identifiers that a set of the store holds as texts. Fails
/// with a `Parse` error if one of the texts writes no identifier.
pub fn parse_ids(members: &Vec<String>) -> (ids: Result<Vec<u64>, StoreError>)
    ensures
        match parsed_ids(views(members@)) {
            Some(values) => ids is Ok && ids->Ok_0@ == values,
            None => ids is Err && ids->Err_0.kind == StoreErrorKind::Parse && ids->Err_0.details@
                == bad_id_message(),
        },
{
    let mut ids: Vec<u64> = Vec::new();
    let mut i: usize = 0;
    while i < members.len()
        invariant
            i <= members.len(),
            ids.len() == i,
            forall|j: int|
                0 <= j < i ==> parsed_id(#[trigger] views(members@)[j]) == Some(ids@[j]),
        decreases members.len() - i,
    {
        match parse_id(members[i].as_str()) {
            Some(id) => {
                ids.push(id);
            },
            None => {
                assert(parsed_id(views(members@)[i as int]) is None);
                return Err(
                    StoreError {
                        kind: StoreErrorKind::Parse,
                        details: String::from_str("invalid identifier"),
                    },
                );
            },
        }
        i += 1;
    }
    assert(ids@ =~= parsed_ids(views(members@))->Some_0);
    Ok(ids)
}

/// The message of the error for a field that the record lacks.
pub open spec fn missing_key(field: Seq<char>) -> Seq<char> {
    "missing key: "@ + field
}

/// The message of the error for a field that holds a value of another
/// kind, or a name that names nothing.
pub open spec fn invalid_value(field: Seq<char>) -> Seq<char> {
    "invalid value for key: "@ + field
}

fn missing(field: &str) -> (error: StoreError)
    ensures
        error.kind == StoreErrorKind::NotFound,
        error.details@ == missing_key(field@),
{
    let mut details = String::from_str("missing key: ");
    details.append(field);
    StoreError { kind: StoreErrorKind::NotFound, details }
}

fn invalid(field: &str) -> (error: StoreError)
    ensures
        error.kind == StoreErrorKind::Parse,
        error.details@ == invalid_value(field@),
{
    let mut details = String::from_str("invalid value for key: ");
    details.append(field);
    StoreError { kind: StoreErrorKind::Parse, details }
}

/// What is wrong with a field, if anything: the kind and the message of
/// the error.
pub open spec fn field_problem<T>(stored: Stored<T>, field: Seq<char>) -> Option<
    (StoreErrorKind, Seq<char>),
> {
    match stored {
        Stored::Missing => Some((StoreErrorKind::NotFound, missing_key(field))),
        Stored::Invalid => Some((StoreErrorKind::Parse, invalid_value(field))),
        Stored::Present(_) => None,
    }
}

/// What is wrong with a stored content mode, if anything.
pub open spec fn nsfw_mode_problem(stored: Stored<String>) -> Option<(StoreErrorKind, Seq<char>)> {
    match stored {
        Stored::Missing => Some((StoreErrorKind::NotFound, missing_key("nsfw_mode"@))),
        Stored::Invalid => Some((StoreErrorKind::NotFound, "Nsfw mode is not a string"@)),
        Stored::Present(name) => if NsfwMode::named(name@) is Some {
            None
        } else {
            Some((StoreErrorKind::Parse, invalid_value("nsfw_mode"@)))
        },
    }
}

/// What is wrong with a stored timeout mode, if anything.
pub open spec fn timeout_mode_problem(stored: Stored<String>) -> Option<
    (StoreErrorKind, Seq<char>),
> {
    match stored {
        Stored::Missing => Some((StoreErrorKind::NotFound, missing_key("timeout_mode"@))),
        Stored::Invalid => Some((StoreErrorKind::NotFound, "Timeout mode is not a string"@)),
        Stored::Present(name) => if TimeoutMode::named(name@) is Some {
            None
        } else {
            Some((StoreErrorKind::Parse, invalid_value("timeout_mode"@)))
        },
    }
}

/// The first thing that is wrong with a channel's record, if anything.
/// The fields are looked at in the order active, timeout, timeout mode,
/// content mode, tags.
pub open spec fn channel_problem(stored: StoredChannel) -> Option<(StoreErrorKind, Seq<char>)> {
    if field_problem(stored.active, "active"@) is Some {
        field_problem(stored.active, "active"@)
    } else if field_problem(stored.timeout, "timeout"@) is Some {
        field_problem(stored.timeout, "timeout"@)
    } else if timeout_mode_problem(stored.timeout_mode) is Some {
        timeout_mode_problem(stored.timeout_mode)
    } else if nsfw_mode_problem(stored.nsfw_mode) is Some {
        nsfw_mode_problem(stored.nsfw_mode)
    } else {
        field_problem(stored.tags, "tags"@)
    }
}

/// The settings that a channel's record without a problem holds.
pub open spec fn channel_of(stored: StoredChannel) -> ChannelSettings {
    ChannelSettings {
        active: stored.active->Present_0,
        timeout: stored.timeout->Present_0,
        timeout_mode: TimeoutMode::named(stored.timeout_mode->Present_0@)->Some_0,
        nsfw_mode: NsfwMode::named(stored.nsfw_mode->Present_0@)->Some_0,
        tags: views(stored.tags->Present_0@),
    }
}

/// True if `read` is the outcome that `problem` asks for: the error with
/// its kind and message, or no error where there is no problem.
pub open spec fn fails_with<T>(read: Result<T, StoreError>, problem: Option<(StoreErrorKind, Seq<char>)>) -> bool {
    match problem {
        Some(p) => read is Err && read->Err_0.kind == p.0 && read->Err_0.details@ == p.1,
        None => read is Ok,
    }
}

impl NsfwMode {
    /// Reads a content mode from what the store holds for it.
    pub fn from_value(stored: Stored<String>) -> (mode: Result<NsfwMode, StoreError>)
        ensures
            fails_with(mode, nsfw_mode_problem(stored)),
            mode is Ok ==> Some(mode->Ok_0) == NsfwMode::named(stored->Present_0@),
    {
        match stored {
            Stored::Missing => Err(missing("nsfw_mode")),
            Stored::Invalid => Err(
                StoreError {
                    kind: StoreErrorKind::NotFound,
                    details: String::from_str("Nsfw mode is not a string"),
                },
            ),
            Stored::Present(name) => match NsfwMode::from_name(name.as_str()) {
                Some(mode) => Ok(mode),
                None => Err(invalid("nsfw_mode")),
            },
        }
    }
}

impl TimeoutMode {
    /// Reads a timeout mode from what the store holds for it.
    pub fn from_value(stored: Stored<String>) -> (mode: Result<TimeoutMode, StoreError>)
        ensures
            fails_with(mode, timeout_mode_problem(stored)),
            mode is Ok ==> Some(mode->Ok_0) == TimeoutMode::named(stored->Present_0@),
    {
        match stored {
            Stored::Missing => Err(missing("timeout_mode")),
            Stored::Invalid => Err(
                StoreError {
                    kind: StoreErrorKind::NotFound,
                    details: String::from_str("Timeout mode is not a string"),
                },
            ),
            Stored::Present(name) => match TimeoutMode::from_name(name.as_str()) {
                Some(mode) => Ok(mode),
                None => Err(invalid("timeout_mode")),
            },
        }
    }
}

impl ChannelConfiguration {
    /// Reads the settings of a channel from its record. Fails with the
    /// error of the first field that is missing or cannot be understood.
    pub fn from_value(stored: StoredChannel) -> (config: Result<ChannelConfiguration, StoreError>)
        ensures
            fails_with(config, channel_problem(stored)),
            config is Ok ==> config->Ok_0@ == channel_of(stored),
    {
        let active = match stored.active {
            Stored::Missing => { return Err(missing("active")); },
            Stored::Invalid => { return Err(invalid("active")); },
            Stored::Present(active) => active,
        };
        let timeout = match stored.timeout {
            Stored::Missing => { return Err(missing("timeout")); },
            Stored::Invalid => { return Err(invalid("timeout")); },
            Stored::Present(timeout) => timeout,
        };
        let timeout_mode = match TimeoutMode::from_value(stored.timeout_mode) {
            Ok(mode) => mode,
            Err(error) => { return Err(error); },
        };
        let nsfw_mode = match NsfwMode::from_value(stored.nsfw_mode) {
            Ok(mode) => mode,
            Err(error) => { return Err(error); },
        };
        let tags = match stored.tags {
            Stored::Missing => { return Err(missing("tags")); },
            Stored::Invalid => { return Err(invalid("tags")); },
            Stored::Present(tags) => tags,
        };
        Ok(ChannelConfiguration { active, timeout, timeout_mode, nsfw_mode, tags })
    }
}

/// What is wrong with the moderator roles of a guild's record, if
/// anything. The roles are stored as one text of identifiers with white
/// space between them.
pub open spec fn roles_problem(stored: Stored<String>) -> Option<(StoreErrorKind, Seq<char>)> {
    match stored {
        Stored::Missing => Some((StoreErrorKind::NotFound, missing_key("moderator_roles"@))),
        Stored::Invalid => Some((StoreErrorKind::Parse, invalid_value("moderator_roles"@))),
        Stored::Present(text) => if parsed_ids(unicode_words(text@)) is Some {
            None
        } else {
            Some((StoreErrorKind::Parse, bad_id_message()))
        },
    }
}

impl GuildConfiguration {
    /// Reads the configuration of a guild from the moderator roles of its
    /// record. The guild comes without channels and without tasks.
    pub fn from_value(moderator_roles: Stored<String>) -> (guild: Result<
        GuildConfiguration,
        StoreError,
    >)
        ensures
            fails_with(guild, roles_problem(moderator_roles)),
            guild is Ok ==> guild->Ok_0@ == (GuildSettings {
                moderator_roles: parsed_ids(unicode_words(moderator_roles->Present_0@))->Some_0.to_set(),
                ..empty_guild()
            }),
            guild is Ok ==> guild->Ok_0.signals() == no_signals(),
    {
        match moderator_roles {
            Stored::Missing => Err(missing("moderator_roles")),
            Stored::Invalid => Err(invalid("moderator_roles")),
            Stored::Present(text) => {
                let names = split_unicode_words(text.as_str());
                match parse_ids(&names) {
                    Ok(roles) => Ok(GuildConfiguration::with_roles(&roles)),
                    Err(error) => Err(error),
                }
            },
        }
    }
}

} // verus!
