//! What the bot's commands do to the registry, and what they answer.

use tokio::sync::watch::Receiver;
use vstd::prelude::*;
use vstd::string::StringExecFns;
use crate::configuration::{ChannelSettings, GuildSettings, NsfwMode, TimeoutMode};
use crate::constants::MINIMUM_TIMEOUT_MINUTES;
use crate::error::Error;
use crate::registry::{
    data_after_start, data_after_stop, data_with_settings, is_live, settings_at, settings_before,
    Data,
};
use crate::text::{append_decimal, decimal, decimal_string, join, joined, split_words, words};

verus! {

/// The way a channel is named in a message so that the client shows a
/// link to it.
pub open spec fn channel_mention(channel: u64) -> Seq<char> {
    "<#"@ + decimal(channel as nat) + ">"@
}

/// The answer to `start`.
pub open spec fn start_reply(channel: u64) -> Seq<char> {
    "Channel "@ + channel_mention(channel) + " will receive images."@
}

/// The answer to `stop`.
pub open spec fn stop_reply(channel: u64) -> Seq<char> {
    channel_mention(channel) + " will no longer receive images."@
}

/// The answer to `timeout`, given the timeout that the channel has and the
/// one that the user asks for.
pub open spec fn timeout_reply(current: Option<u64>, wanted: Option<u64>) -> Seq<char> {
    match wanted {
        Some(new) => if new <= MINIMUM_TIMEOUT_MINUTES {
            "Timeout must be greater than "@ + decimal(MINIMUM_TIMEOUT_MINUTES as nat)
        } else {
            match current {
                Some(old) => "Old timeout: "@ + decimal(old as nat) + " minutes\nNew timeout: "@
                    + decimal(new as nat) + " minutes"@,
                None => "Old timeout is not set.\nNew timeout is: "@ + decimal(new as nat)
                    + " minutes"@,
            }
        },
        None => match current {
            Some(old) => decimal(old as nat),
            None => "Timeout is not set.\n"@,
        },
    }
}

/// True if `timeout` sets the timeout that the user asks for: it has to be
/// over the global minimum.
pub open spec fn timeout_accepted(wanted: Option<u64>) -> bool {
    wanted is Some && wanted->Some_0 > MINIMUM_TIMEOUT_MINUTES
}

/// The answer to `nsfw`, given the mode that the channel has and the one
/// that the user asks for.
pub open spec fn nsfw_reply(current: Option<NsfwMode>, wanted: Option<NsfwMode>) -> Seq<char> {
    match wanted {
        Some(new) => match current {
            Some(old) => "Old nsfw mode: "@ + old.spec_name() + "\nNew nsfw mode: "@
                + new.spec_name(),
            None => "Old nsfw mode is not set.\nNew nsfw mode: "@ + new.spec_name(),
        },
        None => match current {
            Some(old) => old.spec_name(),
            None => "Nsfw mode is not set.\n"@,
        },
    }
}

/// The answer to `timeout_mode`, given the mode that the channel has and
/// the one that the user asks for.
pub open spec fn timeout_mode_reply(
    current: Option<TimeoutMode>,
    wanted: Option<TimeoutMode>,
) -> Seq<char> {
    match wanted {
        Some(new) => match current {
            Some(old) => "Old timeout mode: "@ + old.spec_name() + "\nNew timeout mode: "@
                + new.spec_name(),
            None => "Old timeout mode is not set.\nNew timeout mode: "@ + new.spec_name(),
        },
        None => match current {
            Some(old) => old.spec_name(),
            None => "Timeout mode is not set.\n"@,
        },
    }
}

/// The timeout of a channel as the registry has it.
pub open spec fn timeout_at(guilds: Map<u64, GuildSettings>, guild: u64, channel: u64) -> Option<u64> {
    match settings_at(guilds, guild, channel) {
        Some(settings) => Some(settings.timeout),
        None => None,
    }
}

/// The content mode of a channel as the registry has it.
pub open spec fn nsfw_mode_at(guilds: Map<u64, GuildSettings>, guild: u64, channel: u64) -> Option<
    NsfwMode,
> {
    match settings_at(guilds, guild, channel) {
        Some(settings) => Some(settings.nsfw_mode),
        None => None,
    }
}

/// The timeout mode of a channel as the registry has it.
pub open spec fn timeout_mode_at(guilds: Map<u64, GuildSettings>, guild: u64, channel: u64) -> Option<
    TimeoutMode,
> {
    match settings_at(guilds, guild, channel) {
        Some(settings) => Some(settings.timeout_mode),
        None => None,
    }
}

fn append_mention(text: &mut String, channel: u64)
    ensures
        final(text)@ == old(text)@ + channel_mention(channel),
{
    text.append("<#");
    append_decimal(text, channel);
    text.append(">");
    assert(text@ =~= old(text)@ + channel_mention(channel));
}

/// The command that starts posting in a channel. Outside of a guild it
/// fails and changes nothing. In a guild it asks the registry for a task:
/// the answer names the channel, and the stop signal is handed on where a
/// task has to be launched. A task that runs keeps its stop signal, and so
/// do the tasks of other channels.
pub fn start(data: &mut Data, guild: Option<u64>, channel: u64) -> (done: Result<
    (String, Option<Receiver<bool>>),
    Error,
>)
    ensures
        match guild {
            Some(g) => done is Ok && done->Ok_0.0@ == start_reply(channel) && (done->Ok_0.1 is Some
                <==> !is_live(old(data)@, g, channel)) && final(data)@ == data_after_start(
                old(data)@,
                g,
                channel,
            ),
            None => done is Err && done->Err_0 == Error::CommandNotRunInGuild && final(data)@
                == old(data)@,
        },
        match guild {
            Some(g) => ({
                &&& final(data).signals().contains_key((g, channel))
                &&& final(data).signals().remove((g, channel)) == old(data).signals().remove(
                    (g, channel),
                )
                &&& is_live(old(data)@, g, channel) ==> final(data).signals()
                    == old(data).signals()
            }),
            None => final(data).signals() == old(data).signals(),
        },
{
    match guild {
        Some(g) => {
            let mut content = String::from_str("Channel ");
            append_mention(&mut content, channel);
            content.append(" will receive images.");
            assert(content@ =~= start_reply(channel));
            let stop_signal = data.start(g, channel);
            Ok((content, stop_signal))
        },
        None => Err(Error::CommandNotRunInGuild),
    }
}

/// The command that stops posting in a channel. Outside of a guild it
/// fails and changes nothing. In a guild it stops the channel's task in
/// the registry; the answer names the channel. A channel that has no task
/// and no settings is left as it is. The tasks of other channels keep
/// their stop signals.
pub fn stop(data: &mut Data, guild: Option<u64>, channel: u64) -> (done: Result<String, Error>)
    ensures
        match guild {
            Some(g) => done is Ok && done->Ok_0@ == stop_reply(channel) && final(data)@
                == data_after_stop(old(data)@, g, channel),
            None => done is Err && done->Err_0 == Error::CommandNotRunInGuild && final(data)@
                == old(data)@,
        },
        match guild {
            Some(g) => final(data).signals() == old(data).signals().remove((g, channel)),
            None => final(data).signals() == old(data).signals(),
        },
{
    match guild {
        Some(g) => {
            let mut content = String::new();
            append_mention(&mut content, channel);
            content.append(" will no longer receive images.");
            assert(content@ =~= stop_reply(channel));
            let _ = data.stop(g, channel);
            Ok(content)
        },
        None => Err(Error::CommandNotRunInGuild),
    }
}

/// The command that shows or sets the timeout of a channel. Outside of a
/// guild it fails and changes nothing. With a timeout over the global
/// minimum it sets it; with a smaller one it refuses; with none it shows
/// the one that the channel has.
pub fn timeout(data: &mut Data, guild: Option<u64>, channel: u64, wanted: Option<u64>) -> (done:
    Result<String, Error>)
    ensures
        match guild {
            Some(g) => done is Ok && done->Ok_0@ == timeout_reply(
                timeout_at(old(data)@, g, channel),
                wanted,
            ) && final(data)@ == if timeout_accepted(wanted) {
                data_with_settings(
                    old(data)@,
                    g,
                    channel,
                    ChannelSettings {
                        timeout: wanted->Some_0,
                        ..settings_before(old(data)@, g, channel)
                    },
                )
            } else {
                old(data)@
            },
            None => done is Err && done->Err_0 == Error::CommandNotRunInGuild && final(data)@
                == old(data)@,
        },
        final(data).signals() == old(data).signals(),
{
    let g = match guild {
        Some(g) => g,
        None => { return Err(Error::CommandNotRunInGuild); },
    };
    let current = data.timeout(g, channel);
    let content = match wanted {
        Some(new) => {
            if new <= MINIMUM_TIMEOUT_MINUTES {
                let mut content = String::from_str("Timeout must be greater than ");
                append_decimal(&mut content, MINIMUM_TIMEOUT_MINUTES);
                content
            } else {
                data.set_timeout(g, channel, new);
                match current {
                    Some(old) => {
                        let mut content = String::from_str("Old timeout: ");
                        append_decimal(&mut content, old);
                        content.append(" minutes\nNew timeout: ");
                        append_decimal(&mut content, new);
                        content.append(" minutes");
                        content
                    },
                    None => {
                        let mut content = String::from_str(
                            "Old timeout is not set.\nNew timeout is: ",
                        );
                        append_decimal(&mut content, new);
                        content.append(" minutes");
                        content
                    },
                }
            }
        },
        None => match current {
            Some(old) => decimal_string(old),
            None => String::from_str("Timeout is not set.\n"),
        },
    };
    assert(content@ =~= timeout_reply(timeout_at(old(data)@, g, channel), wanted));
    Ok(content)
}

/// The command that shows or sets the content mode of a channel. Outside
/// of a guild it fails and changes nothing. With a mode it sets it; with
/// none it shows the one that the channel has.
pub fn nsfw(data: &mut Data, guild: Option<u64>, channel: u64, wanted: Option<NsfwMode>) -> (done:
    Result<String, Error>)
    ensures
        match guild {
            Some(g) => done is Ok && done->Ok_0@ == nsfw_reply(
                nsfw_mode_at(old(data)@, g, channel),
                wanted,
            ) && final(data)@ == match wanted {
                Some(new) => data_with_settings(
                    old(data)@,
                    g,
                    channel,
                    ChannelSettings { nsfw_mode: new, ..settings_before(old(data)@, g, channel) },
                ),
                None => old(data)@,
            },
            None => done is Err && done->Err_0 == Error::CommandNotRunInGuild && final(data)@
                == old(data)@,
        },
        final(data).signals() == old(data).signals(),
{
    let g = match guild {
        Some(g) => g,
        None => { return Err(Error::CommandNotRunInGuild); },
    };
    let current = data.nsfw_mode(g, channel);
    let content = match wanted {
        Some(new) => {
            let content = match current {
                Some(old) => {
                    let mut content = String::from_str("Old nsfw mode: ");
                    content.append(old.name().as_str());
                    content.append("\nNew nsfw mode: ");
                    content.append(new.name().as_str());
                    content
                },
                None => {
                    let mut content = String::from_str("Old nsfw mode is not set.\nNew nsfw mode: ");
                    content.append(new.name().as_str());
                    content
                },
            };
            data.set_nsfw_mode(g, channel, new);
            content
        },
        None => match current {
            Some(old) => old.name(),
            None => String::from_str("Nsfw mode is not set.\n"),
        },
    };
    assert(content@ =~= nsfw_reply(nsfw_mode_at(old(data)@, g, channel), wanted));
    Ok(content)
}

/// The command that shows or sets the timeout mode of a channel. Outside
/// of a guild it fails and changes nothing. With a mode it sets it; with
/// none it shows the one that the channel has.
pub fn timeout_mode(
    data: &mut Data,
    guild: Option<u64>,
    channel: u64,
    wanted: Option<TimeoutMode>,
) -> (done: Result<String, Error>)
    ensures
        match guild {
            Some(g) => done is Ok && done->Ok_0@ == timeout_mode_reply(
                timeout_mode_at(old(data)@, g, channel),
                wanted,
            ) && final(data)@ == match wanted {
                Some(new) => data_with_settings(
                    old(data)@,
                    g,
                    channel,
                    ChannelSettings {
                        timeout_mode: new,
                        ..settings_before(old(data)@, g, channel)
                    },
                ),
                None => old(data)@,
            },
            None => done is Err && done->Err_0 == Error::CommandNotRunInGuild && final(data)@
                == old(data)@,
        },
        final(data).signals() == old(data).signals(),
{
    let g = match guild {
        Some(g) => g,
        None => { return Err(Error::CommandNotRunInGuild); },
    };
    let current = data.timeout_mode(g, channel);
    let content = match wanted {
        Some(new) => {
            let content = match current {
                Some(old) => {
                    let mut content = String::from_str("Old timeout mode: ");
                    content.append(old.name().as_str());
                    content.append("\nNew timeout mode: ");
                    content.append(new.name().as_str());
                    content
                },
                None => {
                    let mut content = String::from_str(
                        "Old timeout mode is not set.\nNew timeout mode: ",
                    );
                    content.append(new.name().as_str());
                    content
                },
            };
            data.set_timeout_mode(g, channel, new);
            content
        },
        None => match current {
            Some(old) => old.name(),
            None => String::from_str("Timeout mode is not set.\n"),
        },
    };
    assert(content@ =~= timeout_mode_reply(timeout_mode_at(old(data)@, g, channel), wanted));
    Ok(content)
}

/// The tags of a channel as the registry has them.
pub open spec fn tags_at(guilds: Map<u64, GuildSettings>, guild: u64, channel: u64) -> Option<
    Seq<Seq<char>>,
> {
    match settings_at(guilds, guild, channel) {
        Some(settings) => Some(settings.tags),
        None => None,
    }
}

/// The answer to `tags`, given the tags that the channel has and the text
/// with the tags that the user asks for.
pub open spec fn tags_reply(current: Option<Seq<Seq<char>>>, wanted: Option<Seq<char>>) -> Seq<
    char,
> {
    match wanted {
        Some(text) => match current {
            Some(old) => "Old tags: "@ + joined(old, " "@) + "\nNew tags: "@ + joined(
                words(text),
                " "@,
            ),
            None => "Old tags are not set.\nNew tags: "@ + joined(words(text), " "@),
        },
        None => match current {
            Some(old) => joined(old, " "@),
            None => "Tags are not set.\n"@,
        },
    }
}

/// The view of an optional text.
pub open spec fn text_of(text: Option<&str>) -> Option<Seq<char>> {
    match text {
        Some(t) => Some(t@),
        None => None,
    }
}

/// The command that shows or sets the tags of a channel. Outside of a
/// guild it fails and changes nothing. With a text it sets the words of
/// the text as the channel's tags; with none it shows the tags that the
/// channel has.
pub fn tags(data: &mut Data, guild: Option<u64>, channel: u64, wanted: Option<&str>) -> (done:
    Result<String, Error>)
    ensures
        match guild {
            Some(g) => done is Ok && done->Ok_0@ == tags_reply(
                tags_at(old(data)@, g, channel),
                text_of(wanted),
            ) && final(data)@ == match wanted {
                Some(text) => data_with_settings(
                    old(data)@,
                    g,
                    channel,
                    ChannelSettings {
                        tags: words(text@),
                        ..settings_before(old(data)@, g, channel)
                    },
                ),
                None => old(data)@,
            },
            None => done is Err && done->Err_0 == Error::CommandNotRunInGuild && final(data)@
                == old(data)@,
        },
        final(data).signals() == old(data).signals(),
{
    let g = match guild {
        Some(g) => g,
        None => { return Err(Error::CommandNotRunInGuild); },
    };
    let current = data.tags(g, channel);
    let content = match wanted {
        Some(text) => {
            let new_tags = split_words(text);
            let new_line = join(&new_tags, " ");
            let content = match current {
                Some(old) => {
                    let mut content = String::from_str("Old tags: ");
                    content.append(join(&old, " ").as_str());
                    content.append("\nNew tags: ");
                    content.append(new_line.as_str());
                    content
                },
                None => {
                    let mut content = String::from_str("Old tags are not set.\nNew tags: ");
                    content.append(new_line.as_str());
                    content
                },
            };
            data.set_tags(g, channel, new_tags);
            content
        },
        None => match current {
            Some(old) => join(&old, " "),
            None => String::from_str("Tags are not set.\n"),
        },
    };
    assert(content@ =~= tags_reply(tags_at(old(data)@, g, channel), text_of(wanted)));
    Ok(content)
}

} // verus!
