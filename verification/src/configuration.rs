//! Per-channel and per-guild settings.

use std::collections::{HashMap, HashSet};
use tokio::sync::watch::Sender;
use vstd::prelude::*;
use vstd::std_specs::iter::IteratorSpec;
use vstd::string::StringExecFns;
use crate::constants::{
    DEFAULT_TIMEOUT_MINUTES, MAXIMUM_TIMEOUT_MINUTES, MINIMUM_TIMEOUT_MINUTES,
    STARTUP_JITTER_SECONDS,
};
use crate::random::startup_jitter;
use crate::signal::{send_stop, stop_channel, Launch};
use crate::text::{clone_texts, eq_ignoring_case, same_ignoring_case, views};
use crate::error::Error;

verus! {

broadcast use {vstd::std_specs::hash::group_hash_axioms, vstd::set::group_set_axioms};

/// Whether a channel's searches go to the restricted or the unrestricted
/// content source. The default is `SFW`.
#[allow(clippy::upper_case_acronyms)]
#[derive(Debug, Clone, Copy, PartialEq, Eq, Structural)]
pub enum NsfwMode {
    SFW,
    NSFW,
}

impl Default for NsfwMode {
    fn default() -> (mode: Self)
        ensures
            mode == NsfwMode::SFW,
    {
        NsfwMode::SFW
    }
}

impl NsfwMode {
    /// The mode's name.
    pub open spec fn spec_name(self) -> Seq<char> {
        match self {
            NsfwMode::SFW => "sfw"@,
            NsfwMode::NSFW => "nsfw"@,
        }
    }

    /// The mode that `text` names, without regard to case.
    pub open spec fn named(text: Seq<char>) -> Option<NsfwMode> {
        if same_ignoring_case(text, "sfw"@) {
            Some(NsfwMode::SFW)
        } else if same_ignoring_case(text, "nsfw"@) {
            Some(NsfwMode::NSFW)
        } else {
            None
        }
    }

    /// Reads a mode from its name, without regard to case.
    pub fn from_name(text: &str) -> (mode: Option<NsfwMode>)
        ensures
            mode == NsfwMode::named(text@),
    {
        if eq_ignoring_case(text, "sfw") {
            Some(NsfwMode::SFW)
        } else if eq_ignoring_case(text, "nsfw") {
            Some(NsfwMode::NSFW)
        } else {
            None
        }
    }

    /// The mode's name as users write and read it.
    pub fn name(&self) -> (text: String)
        ensures
            text@ == self.spec_name(),
    {
        match self {
            NsfwMode::SFW => String::from_str("sfw"),
            NsfwMode::NSFW => String::from_str("nsfw"),
        }
    }
}

/// How the configured timeout is read: as the wait itself (`Normal`) or as
/// the upper end of a range from which each wait is drawn (`Random`).
#[derive(Debug, Clone, Copy, PartialEq, Eq, Structural)]
pub enum TimeoutMode {
    Normal,
    Random,
}

impl Default for TimeoutMode {
    fn default() -> (mode: Self)
        ensures
            mode == TimeoutMode::Normal,
    {
        TimeoutMode::Normal
    }
}

impl TimeoutMode {
    /// The mode's name.
    pub open spec fn spec_name(self) -> Seq<char> {
        match self {
            TimeoutMode::Normal => "normal"@,
            TimeoutMode::Random => "random"@,
        }
    }

    /// The mode that `text` names, without regard to case.
    pub open spec fn named(text: Seq<char>) -> Option<TimeoutMode> {
        if same_ignoring_case(text, "normal"@) {
            Some(TimeoutMode::Normal)
        } else if same_ignoring_case(text, "random"@) {
            Some(TimeoutMode::Random)
        } else {
            None
        }
    }

    /// Reads a mode from its name, without regard to case.
    pub fn from_name(text: &str) -> (mode: Option<TimeoutMode>)
        ensures
            mode == TimeoutMode::named(text@),
    {
        if eq_ignoring_case(text, "normal") {
            Some(TimeoutMode::Normal)
        } else if eq_ignoring_case(text, "random") {
            Some(TimeoutMode::Random)
        } else {
            None
        }
    }

    /// The mode's name as users write and read it.
    pub fn name(&self) -> (text: String)
        ensures
            text@ == self.spec_name(),
    {
        match self {
            TimeoutMode::Normal => String::from_str("normal"),
            TimeoutMode::Random => String::from_str("random"),
        }
    }
}

/// A range of waits in minutes, inside the global limits.
#[derive(Debug, Clone, Copy)]
pub struct Timeout {
    min: u64,
    max: u64,
}

impl Timeout {
    /// The lower end of the range.
    pub closed spec fn spec_min(&self) -> u64 {
        self.min
    }

    /// The upper end of the range.
    pub closed spec fn spec_max(&self) -> u64 {
        self.max
    }

    /// Accepts a range whose lower end is at least the global minimum and
    /// whose upper end is at most the global maximum. The lower end is
    /// tested first.
    pub fn new(min: u64, max: u64) -> (made: Result<Self, Error>)
        ensures
            min < MINIMUM_TIMEOUT_MINUTES ==> made == Err::<Self, Error>(Error::MinTimeoutTooLow),
            min >= MINIMUM_TIMEOUT_MINUTES && max > MAXIMUM_TIMEOUT_MINUTES ==> made == Err::<
                Self,
                Error,
            >(Error::MaxTimeoutTooHigh),
            min >= MINIMUM_TIMEOUT_MINUTES && max <= MAXIMUM_TIMEOUT_MINUTES ==> made is Ok
                && made->Ok_0.spec_min() == min && made->Ok_0.spec_max() == max,
    {
        if min < MINIMUM_TIMEOUT_MINUTES {
            return Err(Error::MinTimeoutTooLow);
        }
        if max > MAXIMUM_TIMEOUT_MINUTES {
            return Err(Error::MaxTimeoutTooHigh);
        }
        Ok(Self { min, max })
    }

    /// The lower end of the range.
    #[verifier::when_used_as_spec(spec_min)]
    pub fn min(&self) -> (low: u64)
        ensures
            low == self.spec_min(),
    {
        self.min
    }

    /// The upper end of the range.
    #[verifier::when_used_as_spec(spec_max)]
    pub fn max(&self) -> (high: u64)
        ensures
            high == self.spec_max(),
    {
        self.max
    }
}

/// What a channel's settings hold, as plain values.
pub struct ChannelSettings {
    pub active: bool,
    pub timeout: u64,
    pub timeout_mode: TimeoutMode,
    pub nsfw_mode: NsfwMode,
    pub tags: Seq<Seq<char>>,
}

/// Settings of one channel.
#[derive(Debug)]
pub struct ChannelConfiguration {
    /// True if the channel is meant to receive posts.
    pub active: bool,
    /// Timeout in minutes.
    pub timeout: u64,
    /// Whether the timeout is the wait itself or the upper end of a range.
    pub timeout_mode: TimeoutMode,
    /// Which content source is searched.
    pub nsfw_mode: NsfwMode,
    /// The tags to search for.
    pub tags: Vec<String>,
}

impl View for ChannelConfiguration {
    type V = ChannelSettings;

    open spec fn view(&self) -> ChannelSettings {
        ChannelSettings {
            active: self.active,
            timeout: self.timeout,
            timeout_mode: self.timeout_mode,
            nsfw_mode: self.nsfw_mode,
            tags: views(self.tags@),
        }
    }
}

/// The tags that a channel searches for until others are set.
pub open spec fn default_tags() -> Seq<Seq<char>> {
    seq![
        "pokémon_(species)"@,
        "-abs"@,
        "-blob(disambiguation)"@,
        "-breasts"@,
        "-butt"@,
        "-card_game"@,
        "-comic"@,
        "-diaper"@,
        "-dominatrix"@,
        "-expansion"@,
        "-fishnets"@,
        "-flash"@,
        "-foot_focus"@,
        "-gore"@,
        "-human"@,
        "-inflation"@,
        "-model_sheet"@,
        "-muscular"@,
        "-nightmare_fuel"@,
        "-nipples"@,
        "-overweight"@,
        "-panties"@,
        "-pokémorph"@,
        "-pregnant"@,
        "-seductive"@,
        "-syringe"@,
        "-thick_thighs"@,
        "-transformation"@,
        "-vore"@,
        "score:>5"@,
    ]
}

/// The settings of a channel that was never configured: inactive, a fixed
/// wait of forty minutes, the restricted source and the default tags.
pub open spec fn default_settings() -> ChannelSettings {
    ChannelSettings {
        active: false,
        timeout: DEFAULT_TIMEOUT_MINUTES,
        timeout_mode: TimeoutMode::Normal,
        nsfw_mode: NsfwMode::SFW,
        tags: default_tags(),
    }
}

impl Default for ChannelConfiguration {
    fn default() -> (config: Self)
        ensures
            config@ == default_settings(),
    {
        let mut tags: Vec<String> = Vec::new();
        tags.push(String::from_str("pokémon_(species)"));
        tags.push(String::from_str("-abs"));
        tags.push(String::from_str("-blob(disambiguation)"));
        tags.push(String::from_str("-breasts"));
        tags.push(String::from_str("-butt"));
        tags.push(String::from_str("-card_game"));
        tags.push(String::from_str("-comic"));
        tags.push(String::from_str("-diaper"));
        tags.push(String::from_str("-dominatrix"));
        tags.push(String::from_str("-expansion"));
        tags.push(String::from_str("-fishnets"));
        tags.push(String::from_str("-flash"));
        tags.push(String::from_str("-foot_focus"));
        tags.push(String::from_str("-gore"));
        tags.push(String::from_str("-human"));
        tags.push(String::from_str("-inflation"));
        tags.push(String::from_str("-model_sheet"));
        tags.push(String::from_str("-muscular"));
        tags.push(String::from_str("-nightmare_fuel"));
        tags.push(String::from_str("-nipples"));
        tags.push(String::from_str("-overweight"));
        tags.push(String::from_str("-panties"));
        tags.push(String::from_str("-pokémorph"));
        tags.push(String::from_str("-pregnant"));
        tags.push(String::from_str("-seductive"));
        tags.push(String::from_str("-syringe"));
        tags.push(String::from_str("-thick_thighs"));
        tags.push(String::from_str("-transformation"));
        tags.push(String::from_str("-vore"));
        tags.push(String::from_str("score:>5"));
        assert(views(tags@) =~= default_tags());
        Self {
            active: false,
            timeout: DEFAULT_TIMEOUT_MINUTES,
            timeout_mode: TimeoutMode::Normal,
            nsfw_mode: NsfwMode::SFW,
            tags,
        }
    }
}

impl Clone for ChannelConfiguration {
    fn clone(&self) -> (copy: Self)
        ensures
            copy@ == self@,
    {
        Self {
            active: self.active,
            timeout: self.timeout,
            timeout_mode: self.timeout_mode,
            nsfw_mode: self.nsfw_mode,
            tags: clone_texts(&self.tags),
        }
    }
}

/// The settings of `channel`, or the default ones where it has none.
pub open spec fn settings_or_default(
    channels: Map<u64, ChannelSettings>,
    channel: u64,
) -> ChannelSettings {
    if channels.contains_key(channel) {
        channels[channel]
    } else {
        default_settings()
    }
}

/// The same settings with the given active flag.
pub open spec fn with_active(settings: ChannelSettings, active: bool) -> ChannelSettings {
    ChannelSettings { active, ..settings }
}

/// What a guild's configuration holds, as plain values: the settings of
/// its channels, the channels whose delivery task runs, and the roles that
/// may use the bot.
pub struct GuildSettings {
    pub channels: Map<u64, ChannelSettings>,
    pub live: Set<u64>,
    pub moderator_roles: Set<u64>,
}

/// A guild without channels, tasks or roles.
pub open spec fn empty_guild() -> GuildSettings {
    GuildSettings { channels: Map::empty(), live: Set::empty(), moderator_roles: Set::empty() }
}

/// The guild after a task was registered for `channel`: the channel is
/// live and marked active; where it had no settings it has the default
/// ones.
pub open spec fn guild_after_start(guild: GuildSettings, channel: u64) -> GuildSettings {
    GuildSettings {
        channels: guild.channels.insert(
            channel,
            with_active(settings_or_default(guild.channels, channel), true),
        ),
        live: guild.live.insert(channel),
        ..guild
    }
}

/// The guild after the task of `channel` was stopped: the channel is not
/// live, and marked inactive where it has settings. A channel without
/// settings stays without them, so that a stop of a channel that was never
/// set up changes nothing.
pub open spec fn guild_after_stop(guild: GuildSettings, channel: u64) -> GuildSettings {
    GuildSettings {
        channels: if guild.channels.contains_key(channel) {
            guild.channels.insert(channel, with_active(guild.channels[channel], false))
        } else {
            guild.channels
        },
        live: guild.live.remove(channel),
        ..guild
    }
}

/// The guild after all its tasks were stopped: no channel is live and
/// every channel is marked inactive.
pub open spec fn guild_after_stop_all(guild: GuildSettings) -> GuildSettings {
    GuildSettings {
        channels: Map::new(
            |channel: u64| guild.channels.contains_key(channel),
            |channel: u64| with_active(guild.channels[channel], false),
        ),
        live: Set::empty(),
        ..guild
    }
}

/// True if `channel` is marked active and has no task: it is one that a
/// start of all tasks launches.
pub open spec fn awaits_start(guild: GuildSettings, channel: u64) -> bool {
    guild.channels.contains_key(channel) && guild.channels[channel].active && !guild.live.contains(
        channel,
    )
}

/// The live channels of a guild after the channels of `done` were looked
/// at for a start of all tasks.
pub open spec fn live_among(guild: GuildSettings, done: Seq<u64>) -> Set<u64> {
    Set::new(
        |channel: u64|
            guild.live.contains(channel) || (done.contains(channel) && awaits_start(guild, channel)),
    )
}

/// The guild after a task was registered for every channel that is marked
/// active and had none.
pub open spec fn guild_after_start_all(guild: GuildSettings) -> GuildSettings {
    GuildSettings {
        live: Set::new(|channel: u64| guild.live.contains(channel) || awaits_start(guild, channel)),
        ..guild
    }
}

/// The guild after one setting of `channel` was replaced.
pub open spec fn guild_with_settings(
    guild: GuildSettings,
    channel: u64,
    settings: ChannelSettings,
) -> GuildSettings {
    GuildSettings { channels: guild.channels.insert(channel, settings), ..guild }
}

/// No stop signal at all.
pub open spec fn no_signals() -> Map<u64, Sender<bool>> {
    Map::empty()
}

/// Configuration of one guild: the settings of its channels and the stop
/// signals of the delivery tasks that run in it.
#[derive(Debug)]
pub struct GuildConfiguration {
    /// Channel specific configurations.
    channels: HashMap<u64, ChannelConfiguration>,
    /// Roles which are allowed to use the bot.
    moderator_roles: HashSet<u64>,
    /// Signal for every channel that is running right now.
    stop_signals: HashMap<u64, Sender<bool>>,
}

impl View for GuildConfiguration {
    type V = GuildSettings;

    closed spec fn view(&self) -> GuildSettings {
        GuildSettings {
            channels: Map::new(
                |channel: u64| self.channels@.contains_key(channel),
                |channel: u64| self.channels@[channel]@,
            ),
            live: self.stop_signals@.dom(),
            moderator_roles: self.moderator_roles@,
        }
    }
}

impl Default for GuildConfiguration {
    fn default() -> (guild: Self)
        ensures
            guild@ == empty_guild(),
            guild.signals() == no_signals(),
    {
        let guild = GuildConfiguration {
            channels: HashMap::new(),
            moderator_roles: HashSet::new(),
            stop_signals: HashMap::new(),
        };
        assert(guild@.channels =~= Map::<u64, ChannelSettings>::empty());
        assert(guild@.live =~= Set::<u64>::empty());
        guild
    }
}

impl GuildConfiguration {
    /// The stop signals that the guild holds, by channel.
    pub closed spec fn signals(&self) -> Map<u64, Sender<bool>> {
        self.stop_signals@
    }

    /// The live channels are those that have a stop signal.
    pub proof fn lemma_live_has_signal(&self)
        ensures
            self@.live == self.signals().dom(),
    {
    }

    /// A guild without channels or tasks, with the given moderator roles.
    pub fn with_roles(roles: &Vec<u64>) -> (guild: Self)
        ensures
            guild@ == (GuildSettings { moderator_roles: roles@.to_set(), ..empty_guild() }),
            guild.signals() == no_signals(),
    {
        let mut moderator_roles: HashSet<u64> = HashSet::new();
        let mut i: usize = 0;
        while i < roles.len()
            invariant
                i <= roles.len(),
                moderator_roles@ == roles@.take(i as int).to_set(),
            decreases roles.len() - i,
        {
            moderator_roles.insert(roles[i]);
            assert(roles@.take(i + 1) =~= roles@.take(i as int).push(roles[i as int]));
            assert(roles@.take(i + 1).to_set() =~= roles@.take(i as int).to_set().insert(
                roles[i as int],
            )) by {
                let shorter = roles@.take(i as int);
                let longer = roles@.take(i + 1);
                assert forall|r: u64| longer.to_set().contains(r) <==> shorter.to_set().insert(
                    roles[i as int],
                ).contains(r) by {
                    if longer.contains(r) {
                        let j = choose|j: int| 0 <= j < longer.len() && longer[j] == r;
                        if j < i {
                            assert(shorter[j] == r);
                        }
                    }
                    if shorter.contains(r) {
                        let j = choose|j: int| 0 <= j < shorter.len() && shorter[j] == r;
                        assert(longer[j] == r);
                    }
                    assert(longer[i as int] == roles[i as int]);
                }
            }
            i += 1;
        }
        assert(roles@.take(i as int) =~= roles@);
        let guild = GuildConfiguration {
            channels: HashMap::new(),
            moderator_roles,
            stop_signals: HashMap::new(),
        };
        assert(guild@.channels =~= Map::<u64, ChannelSettings>::empty());
        assert(guild@.live =~= Set::<u64>::empty());
        guild
    }

    /// Removes the settings of `channel` and returns them, or the default
    /// ones where there were none.
    fn take_settings(&mut self, channel: u64) -> (config: ChannelConfiguration)
        ensures
            config@ == settings_or_default(old(self)@.channels, channel),
            final(self)@ == (GuildSettings {
                channels: old(self)@.channels.remove(channel),
                ..old(self)@
            }),
            final(self).signals() == old(self).signals(),
    {
        let found = self.channels.remove(&channel);
        assert(self@.channels =~= old(self)@.channels.remove(channel));
        match found {
            Some(config) => config,
            None => ChannelConfiguration::default(),
        }
    }

    /// Puts settings in place for `channel`.
    fn put_settings(&mut self, channel: u64, config: ChannelConfiguration)
        ensures
            final(self)@ == guild_with_settings(old(self)@, channel, config@),
            final(self).signals() == old(self).signals(),
    {
        self.channels.insert(channel, config);
        assert(self@.channels =~= old(self)@.channels.insert(channel, config@));
    }

    /// Sets the settings of `channel` and returns those that it had.
    pub fn insert(&mut self, channel: u64, config: ChannelConfiguration) -> (previous: Option<
        ChannelConfiguration,
    >)
        ensures
            final(self)@ == guild_with_settings(old(self)@, channel, config@),
            final(self).signals() == old(self).signals(),
            previous is Some <==> old(self)@.channels.contains_key(channel),
            previous is Some ==> previous->Some_0@ == old(self)@.channels[channel],
    {
        let previous = self.channels.insert(channel, config);
        assert(self@.channels =~= old(self)@.channels.insert(channel, config@));
        previous
    }

    /// Registers the stop signal of a task that is about to run for
    /// `channel`, and marks the channel active. Where the channel has a
    /// task already, its signal stays and `stop_sender` is dropped.
    pub fn start(&mut self, channel: u64, stop_sender: Sender<bool>)
        ensures
            final(self)@ == guild_after_start(old(self)@, channel),
            final(self).signals() == if old(self).signals().contains_key(channel) {
                old(self).signals()
            } else {
                old(self).signals().insert(channel, stop_sender)
            },
    {
        if !self.stop_signals.contains_key(&channel) {
            self.stop_signals.insert(channel, stop_sender);
        }
        assert(self@.live =~= old(self)@.live.insert(channel));
        let mut config = self.take_settings(channel);
        config.active = true;
        self.put_settings(channel, config);
        assert(self@.channels =~= guild_after_start(old(self)@, channel).channels);
    }

    /// Marks `channel` inactive if it has settings; a channel without
    /// settings stays without them.
    fn deactivate(&mut self, channel: u64)
        ensures
            final(self)@ == (GuildSettings {
                live: old(self)@.live,
                ..guild_after_stop(old(self)@, channel)
            }),
            final(self).signals() == old(self).signals(),
    {
        match self.channels.remove(&channel) {
            Some(mut config) => {
                config.active = false;
                self.channels.insert(channel, config);
            },
            None => {},
        }
        assert(self@.channels =~= guild_after_stop(old(self)@, channel).channels);
    }

    /// Sends the stop signal to the task of `channel`, if one runs, forgets
    /// the signal, and marks the channel inactive. Returns whether a task
    /// was running. For a channel without task and without settings this
    /// changes nothing.
    pub fn stop(&mut self, channel: u64) -> (was_live: bool)
        ensures
            final(self)@ == guild_after_stop(old(self)@, channel),
            final(self).signals() == old(self).signals().remove(channel),
            was_live == old(self)@.live.contains(channel),
    {
        let was_live = match self.stop_signals.remove(&channel) {
            Some(stop_signal) => {
                let _ = send_stop(&stop_signal);
                true
            },
            None => false,
        };
        assert(self.signals() =~= old(self).signals().remove(channel));
        assert(self@.live =~= old(self)@.live.remove(channel));
        self.deactivate(channel);
        was_live
    }

    /// Forgets the stop signal of `channel` without sending it, and marks
    /// the channel inactive: for a task that has ended by itself. Returns
    /// whether the channel had a task.
    pub fn task_ended(&mut self, channel: u64) -> (was_live: bool)
        ensures
            final(self)@ == guild_after_stop(old(self)@, channel),
            final(self).signals() == old(self).signals().remove(channel),
            was_live == old(self)@.live.contains(channel),
    {
        let was_live = self.stop_signals.remove(&channel).is_some();
        assert(self.signals() =~= old(self).signals().remove(channel));
        assert(self@.live =~= old(self)@.live.remove(channel));
        self.deactivate(channel);
        was_live
    }

    /// Sends the stop signal to every task of the guild, forgets the
    /// signals, and marks every channel inactive.
    pub fn stop_all(&mut self)
        ensures
            final(self)@ == guild_after_stop_all(old(self)@),
            final(self).signals() == Map::<u64, Sender<bool>>::empty(),
    {
        let live = key_list(&self.stop_signals);
        let mut i: usize = 0;
        while i < live.len()
            invariant
                *self == *old(self),
            decreases live.len() - i,
        {
            match self.stop_signals.get(&live[i]) {
                Some(stop_signal) => {
                    let _ = send_stop(stop_signal);
                },
                None => {},
            }
            i += 1;
        }
        self.stop_signals.clear();
        assert(self@.live =~= Set::<u64>::empty());
        let ids = key_list(&self.channels);
        let ghost before = self@.channels;
        assert(before == old(self)@.channels);
        let mut i: usize = 0;
        while i < ids.len()
            invariant
                i <= ids.len(),
                ids@.to_set() == before.dom(),
                ids@.no_duplicates(),
                self@.channels.dom() == before.dom(),
                forall|c: u64| #[trigger]
                    before.contains_key(c) ==> self@.channels[c] == if ids@.take(i as int).contains(c) {
                        with_active(before[c], false)
                    } else {
                        before[c]
                    },
                self@.live == Set::<u64>::empty(),
                self@.moderator_roles == old(self)@.moderator_roles,
                self.signals() == Map::<u64, Sender<bool>>::empty(),
            decreases ids.len() - i,
        {
            let c = ids[i];
            let ghost done = ids@.take(i as int);
            assert(ids@.to_set().contains(c));
            assert(!done.contains(c));
            let mut config = self.take_settings(c);
            config.active = false;
            self.put_settings(c, config);
            proof {
                assert(ids@.take(i + 1) =~= done.push(c));
                assert(self@.channels.dom() =~= before.dom());
                assert forall|d: u64| #[trigger] before.contains_key(d) implies self@.channels[d] == if ids@.take(
                    i + 1,
                ).contains(d) {
                    with_active(before[d], false)
                } else {
                    before[d]
                } by {
                    if d != c {
                        if done.contains(d) {
                            let j = choose|j: int| 0 <= j < done.len() && done[j] == d;
                            assert(ids@.take(i + 1)[j] == d);
                        }
                        if ids@.take(i + 1).contains(d) {
                            let longer = ids@.take(i + 1);
                            let j = choose|j: int| 0 <= j < longer.len() && longer[j] == d;
                            assert(done[j] == d);
                        }
                    } else {
                        assert(ids@.take(i + 1)[i as int] == c);
                    }
                }
            }
            i += 1;
        }
        proof {
            assert(ids@.take(i as int) =~= ids@);
            assert forall|c: u64| before.contains_key(c) implies ids@.contains(c) by {
                assert(ids@.to_set().contains(c));
            }
            assert(self@.channels =~= guild_after_stop_all(old(self)@).channels);
        }
    }

    /// Registers a task for every channel that is marked active and has
    /// none, as after the settings were read back from storage. Each of
    /// these channels gets one launch, with a start-up delay drawn from the
    /// start-up window so that the tasks do not search all at once.
    pub fn start_active(&mut self, guild: u64) -> (launches: Vec<Launch>)
        ensures
            final(self)@ == guild_after_start_all(old(self)@),
            old(self).signals().submap_of(final(self).signals()),
            forall|j: int|
                0 <= j < launches.len() ==> (#[trigger] launches[j]).guild == guild && awaits_start(
                    old(self)@,
                    launches[j].channel,
                ) && launches[j].delay_seconds < STARTUP_JITTER_SECONDS,
            forall|c: u64|
                awaits_start(old(self)@, c) ==> exists|j: int|
                    0 <= j < launches.len() && (#[trigger] launches[j]).channel == c,
            forall|j: int, k: int|
                0 <= j < k < launches.len() ==> (#[trigger] launches[j]).channel != (
                #[trigger] launches[k]).channel,
    {
        let ids = key_list(&self.channels);
        let ghost before = self@;
        let mut launches: Vec<Launch> = Vec::new();
        let mut i: usize = 0;
        assert(self@.live =~= live_among(before, ids@.take(0)));
        while i < ids.len()
            invariant
                i <= ids.len(),
                before == old(self)@,
                ids@.to_set() == before.channels.dom(),
                ids@.no_duplicates(),
                self@.channels == before.channels,
                self@.moderator_roles == before.moderator_roles,
                old(self).signals().submap_of(self.signals()),
                self@.live == live_among(before, ids@.take(i as int)),
                forall|j: int|
                    0 <= j < launches.len() ==> (#[trigger] launches[j]).guild == guild
                        && awaits_start(before, launches[j].channel) && launches[j].delay_seconds
                        < STARTUP_JITTER_SECONDS && ids@.take(i as int).contains(
                        launches[j].channel,
                    ),
                forall|c: u64|
                    ids@.take(i as int).contains(c) && awaits_start(before, c) ==> exists|j: int|
                        0 <= j < launches.len() && (#[trigger] launches[j]).channel == c,
                forall|j: int, k: int|
                    0 <= j < k < launches.len() ==> (#[trigger] launches[j]).channel != (
                    #[trigger] launches[k]).channel,
            decreases ids.len() - i,
        {
            let c = ids[i];
            let ghost done = ids@.take(i as int);
            let ghost longer = ids@.take(i + 1);
            let ghost entered = launches@;
            proof {
                assert(longer =~= done.push(c));
                assert(!done.contains(c));
                assert forall|d: u64| longer.contains(d) <==> done.contains(d) || d == c by {
                    if done.contains(d) {
                        let j = choose|j: int| 0 <= j < done.len() && done[j] == d;
                        assert(longer[j] == d);
                    }
                    if longer.contains(d) {
                        let j = choose|j: int| 0 <= j < longer.len() && longer[j] == d;
                        if j < i {
                            assert(done[j] == d);
                        }
                    }
                    assert(longer[i as int] == c);
                }
            }
            if self.is_active(c) && !self.is_live(c) {
                let (sender, stop_signal) = stop_channel();
                let ghost held = self.signals();
                assert(!held.contains_key(c));
                self.start(c, sender);
                assert(self.signals() == held.insert(c, sender));
                assert(old(self).signals().submap_of(self.signals()));
                let delay_seconds = startup_jitter();
                launches.push(Launch { guild, channel: c, stop_signal, delay_seconds });
                proof {
                    assert(self@.channels =~= before.channels);
                    assert(awaits_start(before, c));
                    assert(self@.live =~= live_among(before, longer));
                    assert(launches@[entered.len() as int].channel == c);
                    assert forall|d: u64| longer.contains(d) && awaits_start(before, d) implies exists|
                        j: int,
                    |
                        0 <= j < launches.len() && (#[trigger] launches[j]).channel == d by {
                        if d == c {
                            assert(launches[entered.len() as int].channel == d);
                        } else {
                            let j = choose|j: int|
                                0 <= j < entered.len() && (#[trigger] entered[j]).channel == d;
                            assert(launches[j].channel == d);
                        }
                    }
                    assert forall|j: int, k: int| 0 <= j < k < launches.len() implies (
                    #[trigger] launches[j]).channel != (#[trigger] launches[k]).channel by {
                        if k == entered.len() {
                            assert(done.contains(entered[j].channel));
                        } else {
                            assert(entered[j].channel != entered[k].channel);
                        }
                    }
                }
            } else {
                proof {
                    assert(!awaits_start(before, c));
                    assert(self@.live =~= live_among(before, longer));
                    assert forall|d: u64| longer.contains(d) && awaits_start(before, d) implies exists|
                        j: int,
                    |
                        0 <= j < launches.len() && (#[trigger] launches[j]).channel == d by {
                        assert(done.contains(d));
                    }
                }
            }
            i += 1;
        }
        proof {
            assert(ids@.take(i as int) =~= ids@);
            assert forall|c: u64| before.channels.contains_key(c) implies ids@.contains(c) by {
                assert(ids@.to_set().contains(c));
            }
            assert(self@.live =~= guild_after_start_all(before).live);
        }
        launches
    }

    /// True if `role` is one of the roles that may use the bot.
    pub fn is_moderator_role(&self, role: u64) -> (allowed: bool)
        ensures
            allowed == self@.moderator_roles.contains(role),
    {
        self.moderator_roles.contains(&role)
    }

    /// True if a delivery task runs for `channel`.
    pub fn is_live(&self, channel: u64) -> (live: bool)
        ensures
            live == self@.live.contains(channel),
    {
        self.stop_signals.contains_key(&channel)
    }

    /// True if the channel has settings and is marked active.
    pub fn is_active(&self, channel: u64) -> (active: bool)
        ensures
            active == (self@.channels.contains_key(channel) && self@.channels[channel].active),
    {
        match self.channels.get(&channel) {
            Some(config) => config.active,
            None => false,
        }
    }

    /// The timeout of `channel` in minutes, if it has settings.
    pub fn timeout(&self, channel: &u64) -> (timeout: Option<u64>)
        ensures
            timeout == if self@.channels.contains_key(*channel) {
                Some(self@.channels[*channel].timeout)
            } else {
                None
            },
    {
        match self.channels.get(channel) {
            Some(config) => Some(config.timeout),
            None => None,
        }
    }

    /// Sets the timeout of `channel`; the other settings stay, or are the
    /// default ones where the channel had none.
    pub fn set_timeout(&mut self, channel: u64, timeout: u64)
        ensures
            final(self)@ == guild_with_settings(
                old(self)@,
                channel,
                ChannelSettings { timeout, ..settings_or_default(old(self)@.channels, channel) },
            ),
            final(self).signals() == old(self).signals(),
    {
        let mut config = self.take_settings(channel);
        config.timeout = timeout;
        self.put_settings(channel, config);
        assert(self@.channels =~= old(self)@.channels.insert(
            channel,
            ChannelSettings { timeout, ..settings_or_default(old(self)@.channels, channel) },
        ));
    }

    /// The timeout mode of `channel`, if it has settings.
    pub fn timeout_mode(&self, channel: &u64) -> (timeout_mode: Option<TimeoutMode>)
        ensures
            timeout_mode == if self@.channels.contains_key(*channel) {
                Some(self@.channels[*channel].timeout_mode)
            } else {
                None
            },
    {
        match self.channels.get(channel) {
            Some(config) => Some(config.timeout_mode),
            None => None,
        }
    }

    /// Sets the timeout mode of `channel`; the other settings stay, or are
    /// the default ones where the channel had none.
    pub fn set_timeout_mode(&mut self, channel: u64, timeout_mode: TimeoutMode)
        ensures
            final(self)@ == guild_with_settings(
                old(self)@,
                channel,
                ChannelSettings {
                    timeout_mode,
                    ..settings_or_default(old(self)@.channels, channel)
                },
            ),
            final(self).signals() == old(self).signals(),
    {
        let mut config = self.take_settings(channel);
        config.timeout_mode = timeout_mode;
        self.put_settings(channel, config);
        assert(self@.channels =~= old(self)@.channels.insert(
            channel,
            ChannelSettings { timeout_mode, ..settings_or_default(old(self)@.channels, channel) },
        ));
    }

    /// The content mode of `channel`, if it has settings.
    pub fn nsfw_mode(&self, channel: &u64) -> (nsfw_mode: Option<NsfwMode>)
        ensures
            nsfw_mode == if self@.channels.contains_key(*channel) {
                Some(self@.channels[*channel].nsfw_mode)
            } else {
                None
            },
    {
        match self.channels.get(channel) {
            Some(config) => Some(config.nsfw_mode),
            None => None,
        }
    }

    /// Sets the content mode of `channel`; the other settings stay, or are
    /// the default ones where the channel had none.
    pub fn set_nsfw_mode(&mut self, channel: u64, nsfw_mode: NsfwMode)
        ensures
            final(self)@ == guild_with_settings(
                old(self)@,
                channel,
                ChannelSettings { nsfw_mode, ..settings_or_default(old(self)@.channels, channel) },
            ),
            final(self).signals() == old(self).signals(),
    {
        let mut config = self.take_settings(channel);
        config.nsfw_mode = nsfw_mode;
        self.put_settings(channel, config);
        assert(self@.channels =~= old(self)@.channels.insert(
            channel,
            ChannelSettings { nsfw_mode, ..settings_or_default(old(self)@.channels, channel) },
        ));
    }

    /// The tags of `channel`, if it has settings.
    pub fn tags(&self, channel: &u64) -> (tags: Option<&Vec<String>>)
        ensures
            tags is Some <==> self@.channels.contains_key(*channel),
            tags is Some ==> views(tags->Some_0@) == self@.channels[*channel].tags,
    {
        match self.channels.get(channel) {
            Some(config) => Some(&config.tags),
            None => None,
        }
    }

    /// Sets the tags of `channel`; the other settings stay, or are the
    /// default ones where the channel had none.
    pub fn set_tags(&mut self, channel: u64, tags: Vec<String>)
        ensures
            final(self)@ == guild_with_settings(
                old(self)@,
                channel,
                ChannelSettings {
                    tags: views(tags@),
                    ..settings_or_default(old(self)@.channels, channel)
                },
            ),
            final(self).signals() == old(self).signals(),
    {
        let mut config = self.take_settings(channel);
        config.tags = tags;
        self.put_settings(channel, config);
        assert(self@.channels =~= old(self)@.channels.insert(
            channel,
            ChannelSettings {
                tags: views(tags@),
                ..settings_or_default(old(self)@.channels, channel)
            },
        ));
    }

    /// True if `seen` is what `snapshot` returns for `channel`: whether
    /// the channel is live, and a copy of its settings if it has any.
    pub open spec fn is_snapshot(&self, channel: u64, seen: (bool, Option<ChannelConfiguration>)) -> bool {
        &&& seen.0 == self@.live.contains(channel)
        &&& seen.1 is Some <==> self@.channels.contains_key(channel)
        &&& seen.1 is Some ==> seen.1->Some_0@ == self@.channels[channel]
    }

    /// Whether `channel` is live, and a copy of its settings.
    pub fn snapshot(&self, channel: u64) -> (seen: (bool, Option<ChannelConfiguration>))
        ensures
            self.is_snapshot(channel, seen),
    {
        (self.is_live(channel), self.channel(channel))
    }

    /// A copy of the settings of `channel`.
    pub fn channel(&self, channel: u64) -> (config: Option<ChannelConfiguration>)
        ensures
            config is Some <==> self@.channels.contains_key(channel),
            config is Some ==> config->Some_0@ == self@.channels[channel],
    {
        match self.channels.get(&channel) {
            Some(config) => Some(config.clone()),
            None => None,
        }
    }
}

/// The keys of a map, each once, in the order in which the map hands
/// them out.
pub(crate) fn key_list<V>(map: &HashMap<u64, V>) -> (keys: Vec<u64>)
    ensures
        keys@.to_set() == map@.dom(),
        keys@.no_duplicates(),
{
    let mut keys: Vec<u64> = Vec::new();
    let ghost handed = vstd::std_specs::hash::spec_keys_iter(map).remaining();
    for key in it: map.keys()
        invariant
            it.seq() == handed,
            keys.len() == it.index(),
            forall|j: int| 0 <= j < keys.len() ==> keys@[j] == *handed[j],
    {
        keys.push(*key);
    }
    proof {
        assert(keys@ =~= handed.unref());
        assert(handed.no_duplicates());
        assert forall|i: int, j: int| 0 <= i < keys.len() && 0 <= j < keys.len() && i != j implies keys@[i]
            != keys@[j] by {
            assert(handed[i] != handed[j]);
        }
    }
    keys
}

} // verus!
