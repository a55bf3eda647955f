//! The registry of delivery tasks: for every guild its configuration, and
//! with it the stop signal of each task that runs. All starts and stops go
//! through it, so that no channel ever has two tasks.

use dashmap::DashMap;
use tokio::sync::watch::{Receiver, Sender};
use vstd::prelude::*;
use vstd::string::StringExecFns;
use crate::configuration::{
    awaits_start, empty_guild, guild_after_start, guild_after_start_all, guild_after_stop,
    guild_after_stop_all, guild_with_settings, no_signals, settings_or_default,
    ChannelConfiguration, ChannelSettings, GuildConfiguration, GuildSettings, NsfwMode,
    TimeoutMode,
};
use crate::constants::STARTUP_JITTER_SECONDS;
use crate::delivery::search_tags;
use crate::error::Error;
use crate::signal::{stop_channel, Launch};
use crate::text::views;

verus! {

/// `dashmap::DashMap`, the concurrent map that holds the guilds.
#[verifier::external_type_specification]
#[verifier::external_body]
#[verifier::reject_recursive_types(K)]
#[verifier::reject_recursive_types(V)]
#[verifier::reject_recursive_types(S)]
pub struct ExDashMap<K, V, S>(DashMap<K, V, S>);

/// The entries that a `dashmap::DashMap` of guilds holds: for each key the
/// value that `DashMap::get` finds under it.
pub uninterp spec fn guilds_of(map: DashMap<u64, GuildConfiguration>) -> Map<
    u64,
    GuildConfiguration,
>;

/// The map of guilds without an entry.
pub open spec fn no_guilds() -> Map<u64, GuildConfiguration> {
    Map::empty()
}

/// Calls `DashMap::new`. The contract claims that the new map holds no
/// entry.
#[verifier::external_body]
fn new_guild_map() -> (made: DashMap<u64, GuildConfiguration>)
    ensures
        guilds_of(made) == no_guilds(),
{
    DashMap::new()
}

/// Calls `DashMap::remove`. The contract claims that the entry of `guild`
/// leaves the map and its value is returned, that `None` is returned where
/// the map has no such entry, and that the other entries stay.
#[verifier::external_body]
fn take_guild(map: &mut DashMap<u64, GuildConfiguration>, guild: u64) -> (taken: Option<
    GuildConfiguration,
>)
    ensures
        guilds_of(*final(map)) == guilds_of(*old(map)).remove(guild),
        taken == if guilds_of(*old(map)).contains_key(guild) {
            Some(guilds_of(*old(map))[guild])
        } else {
            None
        },
{
    map.remove(&guild).map(|entry| entry.1)
}

/// Calls `DashMap::insert`. The contract claims that afterwards the map
/// holds `config` for `guild`, in place of what it held for it before, and
/// that the other entries stay.
#[verifier::external_body]
fn put_guild(map: &mut DashMap<u64, GuildConfiguration>, guild: u64, config: GuildConfiguration)
    ensures
        guilds_of(*final(map)) == guilds_of(*old(map)).insert(guild, config),
{
    map.insert(guild, config);
}

/// Calls `DashMap::iter` and collects the keys. The contract claims that
/// the result holds each key of the map once; nothing is claimed of their
/// order.
#[verifier::external_body]
fn guild_ids(map: &DashMap<u64, GuildConfiguration>) -> (ids: Vec<u64>)
    ensures
        ids@.to_set() == guilds_of(*map).dom(),
        ids@.no_duplicates(),
{
    map.iter().map(|entry| *entry.key()).collect()
}

/// Calls `DashMap::view` with `GuildConfiguration::snapshot` for
/// `channel`. The contract claims that the result is `None` where the map
/// has no entry for `guild`, and else what `snapshot` returns on the value
/// of that entry.
#[verifier::external_body]
fn peek_channel(map: &DashMap<u64, GuildConfiguration>, guild: u64, channel: u64) -> (seen: Option<
    (bool, Option<ChannelConfiguration>),
>)
    ensures
        seen is Some <==> guilds_of(*map).contains_key(guild),
        seen is Some ==> guilds_of(*map)[guild].is_snapshot(channel, seen->Some_0),
{
    map.view(&guild, |_, config| config.snapshot(channel))
}

/// The configuration of `guild`, or an empty one where it has none.
pub open spec fn guild_or_empty(guilds: Map<u64, GuildSettings>, guild: u64) -> GuildSettings {
    if guilds.contains_key(guild) {
        guilds[guild]
    } else {
        empty_guild()
    }
}

/// True if a delivery task runs for `channel` of `guild`.
pub open spec fn is_live(guilds: Map<u64, GuildSettings>, guild: u64, channel: u64) -> bool {
    guilds.contains_key(guild) && guilds[guild].live.contains(channel)
}

/// The settings of `channel` of `guild`, if it has any.
pub open spec fn settings_at(guilds: Map<u64, GuildSettings>, guild: u64, channel: u64) -> Option<
    ChannelSettings,
> {
    if guilds.contains_key(guild) && guilds[guild].channels.contains_key(channel) {
        Some(guilds[guild].channels[channel])
    } else {
        None
    }
}

/// The registry after a request to start `channel` of `guild`: unchanged
/// where its task runs already; else the channel is live and active.
pub open spec fn data_after_start(guilds: Map<u64, GuildSettings>, guild: u64, channel: u64) -> Map<
    u64,
    GuildSettings,
> {
    if is_live(guilds, guild, channel) {
        guilds
    } else {
        guilds.insert(guild, guild_after_start(guild_or_empty(guilds, guild), channel))
    }
}

/// The registry after a request to stop `channel` of `guild`: unchanged
/// where the guild is unknown; else the channel is not live and inactive.
pub open spec fn data_after_stop(guilds: Map<u64, GuildSettings>, guild: u64, channel: u64) -> Map<
    u64,
    GuildSettings,
> {
    if guilds.contains_key(guild) {
        guilds.insert(guild, guild_after_stop(guilds[guild], channel))
    } else {
        guilds
    }
}

/// The registry after a request to stop every task.
pub open spec fn data_after_stop_all(guilds: Map<u64, GuildSettings>) -> Map<u64, GuildSettings> {
    Map::new(|guild: u64| guilds.contains_key(guild), |guild: u64| guild_after_stop_all(guilds[guild]))
}

/// The registry after a task was registered for every channel that is
/// marked active and had none.
pub open spec fn data_after_start_all(guilds: Map<u64, GuildSettings>) -> Map<u64, GuildSettings> {
    Map::new(|guild: u64| guilds.contains_key(guild), |guild: u64| guild_after_start_all(guilds[guild]))
}

/// True if `channel` of `guild` is marked active and has no task.
pub open spec fn awaits_launch(guilds: Map<u64, GuildSettings>, guild: u64, channel: u64) -> bool {
    guilds.contains_key(guild) && awaits_start(guilds[guild], channel)
}

/// The registry after one setting of a channel was replaced.
pub open spec fn data_with_settings(
    guilds: Map<u64, GuildSettings>,
    guild: u64,
    channel: u64,
    settings: ChannelSettings,
) -> Map<u64, GuildSettings> {
    guilds.insert(guild, guild_with_settings(guild_or_empty(guilds, guild), channel, settings))
}

/// The settings of a channel that a setter starts from.
pub open spec fn settings_before(guilds: Map<u64, GuildSettings>, guild: u64, channel: u64) -> ChannelSettings {
    settings_or_default(guild_or_empty(guilds, guild).channels, channel)
}

/// The stop signals of one guild among those of all guilds.
pub open spec fn signals_in(signals: Map<(u64, u64), Sender<bool>>, guild: u64) -> Map<
    u64,
    Sender<bool>,
> {
    Map::new(
        |channel: u64| signals.contains_key((guild, channel)),
        |channel: u64| signals[(guild, channel)],
    )
}

/// The stop signals of all guilds after those of `guild` were replaced by
/// `fresh`.
pub open spec fn signals_with_guild(
    signals: Map<(u64, u64), Sender<bool>>,
    guild: u64,
    fresh: Map<u64, Sender<bool>>,
) -> Map<(u64, u64), Sender<bool>> {
    Map::new(
        |key: (u64, u64)|
            if key.0 == guild {
                fresh.contains_key(key.1)
            } else {
                signals.contains_key(key)
            },
        |key: (u64, u64)|
            if key.0 == guild {
                fresh[key.1]
            } else {
                signals[key]
            },
    )
}

/// The registry of all guilds. Every request takes it by `&mut`, so the
/// requests are served one after another, and two starts for one channel
/// cannot both find the channel without a task.
pub struct Data {
    /// Configurations for all known guilds.
    guild_configurations: DashMap<u64, GuildConfiguration>,
}

impl View for Data {
    type V = Map<u64, GuildSettings>;

    closed spec fn view(&self) -> Map<u64, GuildSettings> {
        Map::new(
            |guild: u64| guilds_of(self.guild_configurations).contains_key(guild),
            |guild: u64| guilds_of(self.guild_configurations)[guild]@,
        )
    }
}

impl Data {
    /// The stop signals that the registry holds, by guild and channel: the
    /// sending ends that a stop uses to reach the tasks.
    pub closed spec fn signals(&self) -> Map<(u64, u64), Sender<bool>> {
        Map::new(
            |key: (u64, u64)|
                guilds_of(self.guild_configurations).contains_key(key.0) && guilds_of(
                    self.guild_configurations,
                )[key.0].signals().contains_key(key.1),
            |key: (u64, u64)| guilds_of(self.guild_configurations)[key.0].signals()[key.1],
        )
    }

    /// The live channels are those that have a stop signal.
    pub proof fn lemma_live_has_signal(&self)
        ensures
            forall|guild: u64, channel: u64|
                #![trigger self.signals().contains_key((guild, channel))]
                self.signals().contains_key((guild, channel)) <==> is_live(self@, guild, channel),
    {
        assert forall|guild: u64, channel: u64|
            #![trigger self.signals().contains_key((guild, channel))]
            self.signals().contains_key((guild, channel)) <==> is_live(
                self@,
                guild,
                channel,
            ) by {
            if guilds_of(self.guild_configurations).contains_key(guild) {
                guilds_of(self.guild_configurations)[guild].lemma_live_has_signal();
            }
        }
    }

    /// A registry without guilds.
    pub fn new() -> (data: Self)
        ensures
            data@ == Map::<u64, GuildSettings>::empty(),
            data.signals() == Map::<(u64, u64), Sender<bool>>::empty(),
    {
        let data = Data { guild_configurations: new_guild_map() };
        assert(data@ =~= Map::<u64, GuildSettings>::empty());
        assert(data.signals() =~= Map::<(u64, u64), Sender<bool>>::empty());
        data
    }

    /// Takes the configuration of `guild` out of the map; an empty one
    /// where the guild is unknown.
    fn take(&mut self, guild: u64) -> (config: GuildConfiguration)
        ensures
            config@ == guild_or_empty(old(self)@, guild),
            final(self)@ == old(self)@.remove(guild),
            config.signals() == signals_in(old(self).signals(), guild),
            final(self).signals() == signals_with_guild(old(self).signals(), guild, no_signals()),
    {
        let taken = take_guild(&mut self.guild_configurations, guild);
        assert(self@ =~= old(self)@.remove(guild));
        assert(self.signals() =~= signals_with_guild(old(self).signals(), guild, no_signals()));
        let config = match taken {
            Some(config) => config,
            None => GuildConfiguration::default(),
        };
        assert(config.signals() =~= signals_in(old(self).signals(), guild));
        config
    }

    /// Puts the configuration of `guild` into the map.
    fn put(&mut self, guild: u64, config: GuildConfiguration)
        ensures
            final(self)@ == old(self)@.insert(guild, config@),
            final(self).signals() == signals_with_guild(
                old(self).signals(),
                guild,
                config.signals(),
            ),
    {
        put_guild(&mut self.guild_configurations, guild, config);
        assert(self@ =~= old(self)@.insert(guild, config@));
        assert(self.signals() =~= signals_with_guild(
            old(self).signals(),
            guild,
            config.signals(),
        ));
    }

    /// Sets the configuration of `guild`, as when it is read back from
    /// storage. Tasks that ran in the guild under the configuration that is
    /// replaced are stopped first, so that none runs on without the
    /// registry knowing of it. The stop signals of the guild are then those
    /// that `config` holds; those of the other guilds stay.
    pub fn insert(&mut self, guild: u64, config: GuildConfiguration)
        ensures
            final(self)@ == old(self)@.insert(guild, config@),
            final(self).signals() == signals_with_guild(
                old(self).signals(),
                guild,
                config.signals(),
            ),
    {
        let mut replaced = self.take(guild);
        replaced.stop_all();
        self.put(guild, config);
        assert(self@ =~= old(self)@.insert(guild, config@));
        assert(self.signals() =~= signals_with_guild(
            old(self).signals(),
            guild,
            config.signals(),
        ));
    }

    /// Asks for a delivery task for `channel` of `guild`. Where none runs,
    /// the channel gets a stop signal and is marked active, and the
    /// receiving end of the signal is returned for the task that the
    /// caller then launches. Where one runs, nothing changes and `None` is
    /// returned: the running task keeps its stop signal. The stop signals
    /// of all other channels stay in either case.
    pub fn start(&mut self, guild: u64, channel: u64) -> (stop_signal: Option<Receiver<bool>>)
        ensures
            final(self)@ == data_after_start(old(self)@, guild, channel),
            stop_signal is Some <==> !is_live(old(self)@, guild, channel),
            is_live(final(self)@, guild, channel),
            is_live(old(self)@, guild, channel) ==> final(self).signals() == old(self).signals(),
            final(self).signals().contains_key((guild, channel)),
            final(self).signals().remove((guild, channel)) == old(self).signals().remove(
                (guild, channel),
            ),
    {
        proof {
            old(self).lemma_live_has_signal();
        }
        let mut config = self.take(guild);
        let stop_signal = if !config.is_live(channel) {
            let (sender, receiver) = stop_channel();
            config.start(channel, sender);
            Some(receiver)
        } else {
            None
        };
        proof {
            config.lemma_live_has_signal();
        }
        self.put(guild, config);
        assert(self@ =~= data_after_start(old(self)@, guild, channel));
        assert(self.signals().remove((guild, channel)) =~= old(self).signals().remove(
            (guild, channel),
        ));
        proof {
            if is_live(old(self)@, guild, channel) {
                assert(self.signals() =~= old(self).signals());
            }
        }
        stop_signal
    }

    /// Stops the delivery task of `channel` of `guild`, if the guild is
    /// known: the task's stop signal is sent and forgotten, and the channel
    /// is marked inactive if it has settings. Returns whether a task was
    /// running. Where the channel has neither task nor settings, nothing
    /// changes. The stop signals of all other channels stay.
    pub fn stop(&mut self, guild: u64, channel: u64) -> (was_live: bool)
        ensures
            final(self)@ == data_after_stop(old(self)@, guild, channel),
            was_live == is_live(old(self)@, guild, channel),
            !is_live(final(self)@, guild, channel),
            final(self).signals() == old(self).signals().remove((guild, channel)),
    {
        match take_guild(&mut self.guild_configurations, guild) {
            Some(mut config) => {
                let was_live = config.stop(channel);
                put_guild(&mut self.guild_configurations, guild, config);
                assert(self@ =~= data_after_stop(old(self)@, guild, channel));
                assert(self.signals() =~= old(self).signals().remove((guild, channel)));
                was_live
            },
            None => {
                assert(self@ =~= old(self)@);
                assert(self.signals() =~= old(self).signals().remove((guild, channel)));
                false
            },
        }
    }

    /// Takes the task of `channel` of `guild` out of the registry after it
    /// has ended by itself, as after a post that could not be rendered:
    /// the task's stop signal is forgotten without being sent, and the
    /// channel is marked inactive if it has settings. A later start then
    /// launches a new task. Returns whether the channel had a task. The
    /// stop signals of all other channels stay.
    pub fn task_ended(&mut self, guild: u64, channel: u64) -> (was_live: bool)
        ensures
            final(self)@ == data_after_stop(old(self)@, guild, channel),
            was_live == is_live(old(self)@, guild, channel),
            !is_live(final(self)@, guild, channel),
            final(self).signals() == old(self).signals().remove((guild, channel)),
    {
        match take_guild(&mut self.guild_configurations, guild) {
            Some(mut config) => {
                let was_live = config.task_ended(channel);
                put_guild(&mut self.guild_configurations, guild, config);
                assert(self@ =~= data_after_stop(old(self)@, guild, channel));
                assert(self.signals() =~= old(self).signals().remove((guild, channel)));
                was_live
            },
            None => {
                assert(self@ =~= old(self)@);
                assert(self.signals() =~= old(self).signals().remove((guild, channel)));
                false
            },
        }
    }

    /// Stops every delivery task: in each guild the stop signals are sent
    /// and forgotten, and every channel is marked inactive.
    pub fn stop_all(&mut self)
        ensures
            final(self)@ == data_after_stop_all(old(self)@),
            final(self).signals() == Map::<(u64, u64), Sender<bool>>::empty(),
    {
        let ids = guild_ids(&self.guild_configurations);
        let ghost before = self@;
        assert(before.dom() =~= guilds_of(self.guild_configurations).dom());
        let mut i: usize = 0;
        while i < ids.len()
            invariant
                i <= ids.len(),
                ids@.to_set() == before.dom(),
                ids@.no_duplicates(),
                self@.dom() == before.dom(),
                forall|key: (u64, u64)| #[trigger]
                    self.signals().contains_key(key) ==> !ids@.take(i as int).contains(key.0),
                forall|g: u64| #[trigger]
                    before.contains_key(g) ==> self@[g] == if ids@.take(i as int).contains(g) {
                        guild_after_stop_all(before[g])
                    } else {
                        before[g]
                    },
            decreases ids.len() - i,
        {
            let guild = ids[i];
            let ghost done = ids@.take(i as int);
            let ghost entered = self@;
            let ghost held = self.signals();
            assert(ids@.to_set().contains(guild));
            assert(!done.contains(guild));
            match take_guild(&mut self.guild_configurations, guild) {
                Some(mut config) => {
                    config.stop_all();
                    put_guild(&mut self.guild_configurations, guild, config);
                },
                None => {},
            }
            proof {
                assert(ids@.take(i + 1) =~= done.push(guild));
                assert(self@.dom() =~= before.dom());
                assert(self.signals() =~= signals_with_guild(held, guild, no_signals()));
                assert forall|key: (u64, u64)| #[trigger]
                    self.signals().contains_key(key) implies !ids@.take(i + 1).contains(key.0) by {
                    assert(held.contains_key(key));
                    let longer = ids@.take(i + 1);
                    if longer.contains(key.0) {
                        let j = choose|j: int| 0 <= j < longer.len() && longer[j] == key.0;
                        if j < i {
                            assert(done[j] == key.0);
                        }
                    }
                }
                assert(self@[guild] == guild_after_stop_all(before[guild]));
                assert forall|g: u64| #[trigger] before.contains_key(g) implies self@[g] == if ids@.take(
                    i + 1,
                ).contains(g) {
                    guild_after_stop_all(before[g])
                } else {
                    before[g]
                } by {
                    let longer = ids@.take(i + 1);
                    if g != guild {
                        assert(self@[g] == entered[g]);
                        if done.contains(g) {
                            let j = choose|j: int| 0 <= j < done.len() && done[j] == g;
                            assert(longer[j] == g);
                        }
                        if longer.contains(g) {
                            let j = choose|j: int| 0 <= j < longer.len() && longer[j] == g;
                            assert(done[j] == g);
                        }
                    } else {
                        assert(longer[i as int] == guild);
                    }
                }
            }
            i += 1;
        }
        proof {
            assert(ids@.take(i as int) =~= ids@);
            assert forall|g: u64| before.contains_key(g) implies ids@.contains(g) by {
                assert(ids@.to_set().contains(g));
            }
            assert(self@ =~= data_after_stop_all(before));
            assert forall|key: (u64, u64)| !self.signals().contains_key(key) by {
                if self.signals().contains_key(key) {
                    assert(before.contains_key(key.0));
                }
            }
            assert(self.signals() =~= Map::<(u64, u64), Sender<bool>>::empty());
        }
    }

    /// Registers a task for every channel, in every guild, that is marked
    /// active and has none, as after a restart. Each of these channels gets
    /// one launch, with a start-up delay inside the start-up window; the
    /// caller launches them.
    pub fn start_all(&mut self) -> (launches: Vec<Launch>)
        ensures
            final(self)@ == data_after_start_all(old(self)@),
            old(self).signals().submap_of(final(self).signals()),
            forall|j: int|
                0 <= j < launches.len() ==> awaits_launch(
                    old(self)@,
                    (#[trigger] launches[j]).guild,
                    launches[j].channel,
                ) && launches[j].delay_seconds < STARTUP_JITTER_SECONDS,
            forall|g: u64, c: u64|
                awaits_launch(old(self)@, g, c) ==> exists|j: int|
                    0 <= j < launches.len() && (#[trigger] launches[j]).guild == g
                        && launches[j].channel == c,
            forall|j: int, k: int|
                0 <= j < k < launches.len() ==> (#[trigger] launches[j]).guild != (
                #[trigger] launches[k]).guild || launches[j].channel != launches[k].channel,
    {
        let ids = guild_ids(&self.guild_configurations);
        let ghost before = self@;
        assert(before.dom() =~= guilds_of(self.guild_configurations).dom());
        let mut launches: Vec<Launch> = Vec::new();
        let mut i: usize = 0;
        while i < ids.len()
            invariant
                i <= ids.len(),
                before == old(self)@,
                ids@.to_set() == before.dom(),
                ids@.no_duplicates(),
                self@.dom() == before.dom(),
                old(self).signals().submap_of(self.signals()),
                forall|g: u64| #[trigger]
                    before.contains_key(g) ==> self@[g] == if ids@.take(i as int).contains(g) {
                        guild_after_start_all(before[g])
                    } else {
                        before[g]
                    },
                forall|j: int|
                    0 <= j < launches.len() ==> awaits_launch(
                        before,
                        (#[trigger] launches[j]).guild,
                        launches[j].channel,
                    ) && launches[j].delay_seconds < STARTUP_JITTER_SECONDS && ids@.take(
                        i as int,
                    ).contains(launches[j].guild),
                forall|g: u64, c: u64|
                    ids@.take(i as int).contains(g) && awaits_launch(before, g, c) ==> exists|
                        j: int,
                    |
                        0 <= j < launches.len() && (#[trigger] launches[j]).guild == g
                            && launches[j].channel == c,
                forall|j: int, k: int|
                    0 <= j < k < launches.len() ==> (#[trigger] launches[j]).guild != (
                    #[trigger] launches[k]).guild || launches[j].channel != launches[k].channel,
            decreases ids.len() - i,
        {
            let guild = ids[i];
            let ghost done = ids@.take(i as int);
            let ghost longer = ids@.take(i + 1);
            let ghost entered = launches@;
            let ghost data_entered = self@;
            let ghost held = self.signals();
            proof {
                assert(ids@.to_set().contains(guild));
                assert(longer =~= done.push(guild));
                assert(!done.contains(guild));
                assert forall|d: u64| longer.contains(d) <==> done.contains(d) || d == guild by {
                    if done.contains(d) {
                        let j = choose|j: int| 0 <= j < done.len() && done[j] == d;
                        assert(longer[j] == d);
                    }
                    if longer.contains(d) {
                        let j = choose|j: int| 0 <= j < longer.len() && longer[j] == d;
                        if j < i {
                            assert(done[j] == d);
                        }
                    }
                    assert(longer[i as int] == guild);
                }
            }
            match take_guild(&mut self.guild_configurations, guild) {
                Some(mut config) => {
                    let ghost held_here = config.signals();
                    let mut more = config.start_active(guild);
                    let ghost added = more@;
                    put_guild(&mut self.guild_configurations, guild, config);
                    launches.append(&mut more);
                    proof {
                        assert(held_here =~= signals_in(held, guild));
                        assert(self.signals() =~= signals_with_guild(
                            held,
                            guild,
                            config.signals(),
                        ));
                        assert(held.submap_of(self.signals())) by {
                            assert forall|key: (u64, u64)| #[trigger]
                                held.contains_key(key) implies self.signals().contains_key(key)
                                && self.signals()[key] == held[key] by {
                                if key.0 == guild {
                                    assert(held_here.contains_key(key.1));
                                }
                            }
                        }
                        assert(old(self).signals().submap_of(self.signals())) by {
                            let first = old(self).signals();
                            assert forall|key: (u64, u64)| #[trigger]
                                first.dom().contains(key) implies self.signals().dom().contains(
                                key,
                            ) && first[key] == self.signals()[key] by {
                                assert(held.dom().contains(key) && first[key] == held[key]);
                                assert(self.signals().dom().contains(key) && held[key]
                                    == self.signals()[key]);
                            }
                        }
                        assert(launches@ =~= entered + added);
                        assert(self@.dom() =~= before.dom());
                        assert(self@[guild] == guild_after_start_all(before[guild]));
                        assert forall|g: u64| #[trigger] before.contains_key(g) implies self@[g]
                            == if longer.contains(g) {
                            guild_after_start_all(before[g])
                        } else {
                            before[g]
                        } by {
                            if g != guild {
                                assert(self@[g] == data_entered[g]);
                            }
                        }
                        assert forall|j: int| 0 <= j < launches.len() implies awaits_launch(
                            before,
                            (#[trigger] launches[j]).guild,
                            launches[j].channel,
                        ) && launches[j].delay_seconds < STARTUP_JITTER_SECONDS && longer.contains(
                            launches[j].guild,
                        ) by {
                            if j < entered.len() {
                                assert(launches[j] == entered[j]);
                            } else {
                                assert(launches[j] == added[j - entered.len()]);
                            }
                        }
                        assert forall|g: u64, c: u64|
                            longer.contains(g) && awaits_launch(before, g, c) implies exists|j: int|
                            0 <= j < launches.len() && (#[trigger] launches[j]).guild == g
                                && launches[j].channel == c by {
                            if g == guild {
                                let j = choose|j: int|
                                    0 <= j < added.len() && (#[trigger] added[j]).channel == c;
                                assert(launches[entered.len() + j] == added[j]);
                            } else {
                                let j = choose|j: int|
                                    0 <= j < entered.len() && (#[trigger] entered[j]).guild == g
                                        && entered[j].channel == c;
                                assert(launches[j] == entered[j]);
                            }
                        }
                        assert forall|j: int, k: int| 0 <= j < k < launches.len() implies (
                        #[trigger] launches[j]).guild != (#[trigger] launches[k]).guild
                            || launches[j].channel != launches[k].channel by {
                            if k < entered.len() {
                                assert(launches[j] == entered[j]);
                                assert(launches[k] == entered[k]);
                            } else if j < entered.len() {
                                assert(launches[j] == entered[j]);
                                assert(launches[k] == added[k - entered.len()]);
                                assert(done.contains(entered[j].guild));
                            } else {
                                assert(launches[j] == added[j - entered.len()]);
                                assert(launches[k] == added[k - entered.len()]);
                            }
                        }
                    }
                },
                None => {},
            }
            i += 1;
        }
        proof {
            assert(ids@.take(i as int) =~= ids@);
            assert forall|g: u64| before.contains_key(g) implies ids@.contains(g) by {
                assert(ids@.to_set().contains(g));
            }
            assert(self@ =~= data_after_start_all(before));
        }
        launches
    }

    /// True if a delivery task runs for `channel` of `guild`.
    pub fn is_live(&self, guild: u64, channel: u64) -> (live: bool)
        ensures
            live == is_live(self@, guild, channel),
    {
        match peek_channel(&self.guild_configurations, guild, channel) {
            Some(seen) => seen.0,
            None => false,
        }
    }

    /// A copy of the settings of `channel` of `guild`, if it has any.
    pub fn channel(&self, guild: u64, channel: u64) -> (config: Option<ChannelConfiguration>)
        ensures
            config is Some <==> settings_at(self@, guild, channel) is Some,
            config is Some ==> Some(config->Some_0@) == settings_at(self@, guild, channel),
    {
        match peek_channel(&self.guild_configurations, guild, channel) {
            Some(seen) => seen.1,
            None => None,
        }
    }

    /// True if `channel` of `guild` has settings and is marked active.
    pub fn is_active(&self, guild: u64, channel: u64) -> (active: bool)
        ensures
            active == (settings_at(self@, guild, channel) is Some && settings_at(
                self@,
                guild,
                channel,
            )->Some_0.active),
    {
        match self.channel(guild, channel) {
            Some(config) => config.active,
            None => false,
        }
    }

    /// The timeout of a channel in minutes.
    pub fn timeout(&self, guild: u64, channel: u64) -> (timeout: Option<u64>)
        ensures
            timeout == match settings_at(self@, guild, channel) {
                Some(settings) => Some(settings.timeout),
                None => None,
            },
    {
        match self.channel(guild, channel) {
            Some(config) => Some(config.timeout),
            None => None,
        }
    }

    /// Sets the timeout of a channel in minutes.
    pub fn set_timeout(&mut self, guild: u64, channel: u64, timeout: u64)
        ensures
            final(self)@ == data_with_settings(
                old(self)@,
                guild,
                channel,
                ChannelSettings { timeout, ..settings_before(old(self)@, guild, channel) },
            ),
            final(self).signals() == old(self).signals(),
    {
        let mut config = self.take(guild);
        config.set_timeout(channel, timeout);
        self.put(guild, config);
        assert(self.signals() =~= old(self).signals());
        assert(self@ =~= data_with_settings(
            old(self)@,
            guild,
            channel,
            ChannelSettings { timeout, ..settings_before(old(self)@, guild, channel) },
        ));
    }

    /// The tags of a channel.
    pub fn tags(&self, guild: u64, channel: u64) -> (tags: Option<Vec<String>>)
        ensures
            tags is Some <==> settings_at(self@, guild, channel) is Some,
            tags is Some ==> views(tags->Some_0@) == settings_at(self@, guild, channel)->Some_0.tags,
    {
        match self.channel(guild, channel) {
            Some(config) => Some(config.tags),
            None => None,
        }
    }

    /// Sets the tags of a channel.
    pub fn set_tags(&mut self, guild: u64, channel: u64, tags: Vec<String>)
        ensures
            final(self)@ == data_with_settings(
                old(self)@,
                guild,
                channel,
                ChannelSettings {
                    tags: views(tags@),
                    ..settings_before(old(self)@, guild, channel)
                },
            ),
            final(self).signals() == old(self).signals(),
    {
        let ghost new_tags = views(tags@);
        let mut config = self.take(guild);
        config.set_tags(channel, tags);
        self.put(guild, config);
        assert(self.signals() =~= old(self).signals());
        assert(self@ =~= data_with_settings(
            old(self)@,
            guild,
            channel,
            ChannelSettings { tags: new_tags, ..settings_before(old(self)@, guild, channel) },
        ));
    }

    /// The content mode of a channel.
    pub fn nsfw_mode(&self, guild: u64, channel: u64) -> (nsfw_mode: Option<NsfwMode>)
        ensures
            nsfw_mode == match settings_at(self@, guild, channel) {
                Some(settings) => Some(settings.nsfw_mode),
                None => None,
            },
    {
        match self.channel(guild, channel) {
            Some(config) => Some(config.nsfw_mode),
            None => None,
        }
    }

    /// Sets the content mode of a channel.
    pub fn set_nsfw_mode(&mut self, guild: u64, channel: u64, nsfw_mode: NsfwMode)
        ensures
            final(self)@ == data_with_settings(
                old(self)@,
                guild,
                channel,
                ChannelSettings { nsfw_mode, ..settings_before(old(self)@, guild, channel) },
            ),
            final(self).signals() == old(self).signals(),
    {
        let mut config = self.take(guild);
        config.set_nsfw_mode(channel, nsfw_mode);
        self.put(guild, config);
        assert(self.signals() =~= old(self).signals());
        assert(self@ =~= data_with_settings(
            old(self)@,
            guild,
            channel,
            ChannelSettings { nsfw_mode, ..settings_before(old(self)@, guild, channel) },
        ));
    }

    /// The timeout mode of a channel.
    pub fn timeout_mode(&self, guild: u64, channel: u64) -> (timeout_mode: Option<TimeoutMode>)
        ensures
            timeout_mode == match settings_at(self@, guild, channel) {
                Some(settings) => Some(settings.timeout_mode),
                None => None,
            },
    {
        match self.channel(guild, channel) {
            Some(config) => Some(config.timeout_mode),
            None => None,
        }
    }

    /// Sets the timeout mode of a channel.
    pub fn set_timeout_mode(&mut self, guild: u64, channel: u64, timeout_mode: TimeoutMode)
        ensures
            final(self)@ == data_with_settings(
                old(self)@,
                guild,
                channel,
                ChannelSettings { timeout_mode, ..settings_before(old(self)@, guild, channel) },
            ),
            final(self).signals() == old(self).signals(),
    {
        let mut config = self.take(guild);
        config.set_timeout_mode(channel, timeout_mode);
        self.put(guild, config);
        assert(self.signals() =~= old(self).signals());
        assert(self@ =~= data_with_settings(
            old(self)@,
            guild,
            channel,
            ChannelSettings { timeout_mode, ..settings_before(old(self)@, guild, channel) },
        ));
    }

    /// True if the waits of a channel are drawn at random.
    pub fn random_timeout(&self, guild: u64, channel: u64) -> (random_timeout: Option<bool>)
        ensures
            random_timeout == match settings_at(self@, guild, channel) {
                Some(settings) => Some(settings.timeout_mode == TimeoutMode::Random),
                None => None,
            },
    {
        match self.timeout_mode(guild, channel) {
            Some(TimeoutMode::Random) => Some(true),
            Some(TimeoutMode::Normal) => Some(false),
            None => None,
        }
    }

    /// Sets whether the waits of a channel are drawn at random.
    pub fn set_random_timeout(&mut self, guild: u64, channel: u64, random_timeout: bool)
        ensures
            final(self)@ == data_with_settings(
                old(self)@,
                guild,
                channel,
                ChannelSettings {
                    timeout_mode: if random_timeout {
                        TimeoutMode::Random
                    } else {
                        TimeoutMode::Normal
                    },
                    ..settings_before(old(self)@, guild, channel)
                },
            ),
            final(self).signals() == old(self).signals(),
    {
        let timeout_mode = if random_timeout {
            TimeoutMode::Random
        } else {
            TimeoutMode::Normal
        };
        self.set_timeout_mode(guild, channel, timeout_mode);
    }

    /// The search that brings the next post of a channel: the content mode,
    /// and the channel's tags with the two that ask for one random page.
    /// Fails with `NoTagsSet` exactly if the channel has no settings.
    pub fn search_query(&self, guild: u64, channel: u64) -> (query: Result<
        (NsfwMode, Vec<String>),
        Error,
    >)
        ensures
            match settings_at(self@, guild, channel) {
                Some(settings) => query is Ok && query->Ok_0.0 == settings.nsfw_mode && views(
                    query->Ok_0.1@,
                ) == search_tags(settings.tags),
                None => query == Err::<(NsfwMode, Vec<String>), Error>(Error::NoTagsSet),
            },
    {
        match self.channel(guild, channel) {
            Some(config) => {
                let mut tags = config.tags;
                let ghost before = views(tags@);
                tags.push(String::from_str("order:random"));
                tags.push(String::from_str("limit:20"));
                assert(views(tags@) =~= search_tags(before));
                Ok((config.nsfw_mode, tags))
            },
            None => Err(Error::NoTagsSet),
        }
    }
}

/// A request to the registry.
pub enum Request {
    /// Start the task of a channel.
    Start { guild: u64, channel: u64 },
    /// Stop the task of a channel.
    Stop { guild: u64, channel: u64 },
    /// Stop every task.
    StopAll,
    /// Start a task for every channel that is marked active and has none.
    StartAll,
    /// Take the task of a channel, which has ended by itself, out of the
    /// registry.
    Ended { guild: u64, channel: u64 },
}

/// The registry after it has served `request`.
pub open spec fn data_after(guilds: Map<u64, GuildSettings>, request: Request) -> Map<
    u64,
    GuildSettings,
> {
    match request {
        Request::Start { guild, channel } => data_after_start(guilds, guild, channel),
        Request::Stop { guild, channel } => data_after_stop(guilds, guild, channel),
        Request::StopAll => data_after_stop_all(guilds),
        Request::StartAll => data_after_start_all(guilds),
        Request::Ended { guild, channel } => data_after_stop(guilds, guild, channel),
    }
}

/// The number of tasks that run for a channel according to the registry:
/// one if the channel is live, else none.
pub open spec fn running(guilds: Map<u64, GuildSettings>, guild: u64, channel: u64) -> int {
    if is_live(guilds, guild, channel) {
        1
    } else {
        0
    }
}

/// The number of tasks that `request` launches for a channel: one where
/// it asks to start that channel and `Data::start` hands out a stop signal,
/// or asks to start all and `Data::start_all` returns a launch for the
/// channel; else none.
pub open spec fn launches(
    guilds: Map<u64, GuildSettings>,
    request: Request,
    guild: u64,
    channel: u64,
) -> int {
    match request {
        Request::Start { guild: g, channel: c } => if g == guild && c == channel && !is_live(
            guilds,
            guild,
            channel,
        ) {
            1
        } else {
            0
        },
        Request::StartAll => if awaits_launch(guilds, guild, channel) {
            1
        } else {
            0
        },
        _ => 0,
    }
}

/// The number of tasks of a channel that leave the registry with
/// `request`: one where it stops that channel, or all, or reports that the
/// channel's task has ended, and the channel is live; else none.
pub open spec fn cancels(
    guilds: Map<u64, GuildSettings>,
    request: Request,
    guild: u64,
    channel: u64,
) -> int {
    match request {
        Request::Start { guild: g, channel: c } => 0,
        Request::Stop { guild: g, channel: c } => if g == guild && c == channel {
            running(guilds, guild, channel)
        } else {
            0
        },
        Request::StopAll => running(guilds, guild, channel),
        Request::StartAll => 0,
        Request::Ended { guild: g, channel: c } => if g == guild && c == channel {
            running(guilds, guild, channel)
        } else {
            0
        },
    }
}

/// The registry after it has served `requests` one after another.
pub open spec fn data_after_all(guilds: Map<u64, GuildSettings>, requests: Seq<Request>) -> Map<
    u64,
    GuildSettings,
>
    decreases requests.len(),
{
    if requests.len() == 0 {
        guilds
    } else {
        data_after(data_after_all(guilds, requests.drop_last()), requests.last())
    }
}

/// The number of tasks launched for a channel while `requests` are served.
pub open spec fn launched(
    guilds: Map<u64, GuildSettings>,
    requests: Seq<Request>,
    guild: u64,
    channel: u64,
) -> int
    decreases requests.len(),
{
    if requests.len() == 0 {
        0
    } else {
        launched(guilds, requests.drop_last(), guild, channel) + launches(
            data_after_all(guilds, requests.drop_last()),
            requests.last(),
            guild,
            channel,
        )
    }
}

/// The number of tasks of a channel that leave the registry while
/// `requests` are served.
pub open spec fn cancelled(
    guilds: Map<u64, GuildSettings>,
    requests: Seq<Request>,
    guild: u64,
    channel: u64,
) -> int
    decreases requests.len(),
{
    if requests.len() == 0 {
        0
    } else {
        cancelled(guilds, requests.drop_last(), guild, channel) + cancels(
            data_after_all(guilds, requests.drop_last()),
            requests.last(),
            guild,
            channel,
        )
    }
}

/// One request changes the number of running tasks of a channel by what it
/// launches and what it cancels for that channel.
pub proof fn request_keeps_count(
    guilds: Map<u64, GuildSettings>,
    request: Request,
    guild: u64,
    channel: u64,
)
    ensures
        running(data_after(guilds, request), guild, channel) == running(guilds, guild, channel)
            + launches(guilds, request, guild, channel) - cancels(guilds, request, guild, channel),
{
}

/// Whatever requests the registry serves, and in whatever order, the tasks
/// launched for a channel that have not left the registry are as many as
/// the registry says are running, and that is at most one.
pub proof fn at_most_one_task(
    guilds: Map<u64, GuildSettings>,
    requests: Seq<Request>,
    guild: u64,
    channel: u64,
)
    ensures
        running(guilds, guild, channel) + launched(guilds, requests, guild, channel) - cancelled(
            guilds,
            requests,
            guild,
            channel,
        ) == running(data_after_all(guilds, requests), guild, channel),
        0 <= running(data_after_all(guilds, requests), guild, channel) <= 1,
    decreases requests.len(),
{
    if requests.len() > 0 {
        at_most_one_task(guilds, requests.drop_last(), guild, channel);
        request_keeps_count(
            data_after_all(guilds, requests.drop_last()),
            requests.last(),
            guild,
            channel,
        );
    }
}

/// A stop followed by a start leaves exactly one task running for the
/// channel, whatever the registry held before: the stop leaves none, and
/// the start launches one. The same holds of a start after the channel's
/// task has ended by itself, which leaves the registry as a stop does.
pub proof fn restart_runs_one_task(guilds: Map<u64, GuildSettings>, guild: u64, channel: u64)
    ensures
        running(data_after_stop(guilds, guild, channel), guild, channel) == 0,
        launches(
            data_after_stop(guilds, guild, channel),
            Request::Start { guild, channel },
            guild,
            channel,
        ) == 1,
        running(
            data_after_start(data_after_stop(guilds, guild, channel), guild, channel),
            guild,
            channel,
        ) == 1,
{
}

/// A start for a channel whose task runs changes nothing and launches
/// nothing.
pub proof fn start_is_idempotent(guilds: Map<u64, GuildSettings>, guild: u64, channel: u64)
    ensures
        data_after_start(data_after_start(guilds, guild, channel), guild, channel)
            == data_after_start(guilds, guild, channel),
        launches(
            data_after_start(guilds, guild, channel),
            Request::Start { guild, channel },
            guild,
            channel,
        ) == 0,
{
}

/// A request for one channel leaves the tasks of every other channel as
/// they are.
pub proof fn other_channels_keep_running(
    guilds: Map<u64, GuildSettings>,
    guild: u64,
    channel: u64,
    other_guild: u64,
    other_channel: u64,
)
    requires
        guild != other_guild || channel != other_channel,
    ensures
        is_live(data_after_start(guilds, guild, channel), other_guild, other_channel) == is_live(
            guilds,
            other_guild,
            other_channel,
        ),
        is_live(data_after_stop(guilds, guild, channel), other_guild, other_channel) == is_live(
            guilds,
            other_guild,
            other_channel,
        ),
{
}

/// True if every channel of the guild whose task runs has settings and is
/// marked active.
pub open spec fn live_is_active(guild: GuildSettings) -> bool {
    forall|channel: u64| #[trigger]
        guild.live.contains(channel) ==> guild.channels.contains_key(channel)
            && guild.channels[channel].active
}

/// True if, in every guild, every channel whose task runs is marked
/// active.
pub open spec fn consistent(guilds: Map<u64, GuildSettings>) -> bool {
    forall|guild: u64| #[trigger] guilds.contains_key(guild) ==> live_is_active(guilds[guild])
}

/// Starts and stops keep the registry consistent: where every running
/// task belonged to a channel marked active before a request, the same
/// holds after it. So does a start of all tasks.
pub proof fn requests_keep_consistency(guilds: Map<u64, GuildSettings>, request: Request)
    requires
        consistent(guilds),
    ensures
        consistent(data_after(guilds, request)),
        consistent(data_after_start_all(guilds)),
{
    assert(live_is_active(empty_guild()));
    assert forall|guild: u64| #[trigger] data_after(guilds, request).contains_key(guild) implies live_is_active(
        data_after(guilds, request)[guild],
    ) by {
        if guilds.contains_key(guild) {
            assert(live_is_active(guilds[guild]));
        }
    }
    assert forall|guild: u64| #[trigger] data_after_start_all(guilds).contains_key(guild) implies live_is_active(
        data_after_start_all(guilds)[guild],
    ) by {
        assert(live_is_active(guilds[guild]));
    }
}

/// Replacing the timeout, the timeout mode, the content mode or the tags
/// of a channel keeps the registry consistent, since the channel stays as
/// active as it was; and a channel whose task runs stays live.
pub proof fn settings_keep_consistency(
    guilds: Map<u64, GuildSettings>,
    guild: u64,
    channel: u64,
    settings: ChannelSettings,
)
    requires
        consistent(guilds),
        settings.active == settings_before(guilds, guild, channel).active,
    ensures
        consistent(data_with_settings(guilds, guild, channel, settings)),
        forall|g: u64, c: u64|
            is_live(data_with_settings(guilds, guild, channel, settings), g, c) == is_live(
                guilds,
                g,
                c,
            ),
{
    assert(live_is_active(empty_guild()));
    assert forall|g: u64| #[trigger]
        data_with_settings(guilds, guild, channel, settings).contains_key(g) implies live_is_active(
        data_with_settings(guilds, guild, channel, settings)[g],
    ) by {
        if guilds.contains_key(g) {
            assert(live_is_active(guilds[g]));
        }
    }
}

/// After a stop of all tasks no task runs and no channel is marked
/// active, while every channel keeps its other settings.
pub proof fn stop_all_stops_everything(guilds: Map<u64, GuildSettings>, guild: u64, channel: u64)
    ensures
        !is_live(data_after_stop_all(guilds), guild, channel),
        settings_at(data_after_stop_all(guilds), guild, channel) == match settings_at(
            guilds,
            guild,
            channel,
        ) {
            Some(settings) => Some(ChannelSettings { active: false, ..settings }),
            None => None,
        },
{
}

/// After a start of all tasks every channel that is marked active has a
/// task, so a second start of all tasks finds nothing to launch; the tasks
/// that ran before still run, and no settings have changed.
pub proof fn start_all_leaves_none_waiting(guilds: Map<u64, GuildSettings>, guild: u64, channel: u64)
    ensures
        !awaits_launch(data_after_start_all(guilds), guild, channel),
        is_live(data_after_start_all(guilds), guild, channel) == (is_live(guilds, guild, channel)
            || awaits_launch(guilds, guild, channel)),
        settings_at(data_after_start_all(guilds), guild, channel) == settings_at(
            guilds,
            guild,
            channel,
        ),
{
}

/// A stop for a channel that has neither a task nor settings changes
/// nothing: the channel stays without settings, and the registry is what
/// it was.
pub proof fn stop_of_unknown_channel_changes_nothing(
    guilds: Map<u64, GuildSettings>,
    guild: u64,
    channel: u64,
)
    requires
        !is_live(guilds, guild, channel),
        settings_at(guilds, guild, channel) is None,
    ensures
        data_after_stop(guilds, guild, channel) == guilds,
{
    if guilds.contains_key(guild) {
        assert(guilds[guild].live.remove(channel) =~= guilds[guild].live);
        assert(guild_after_stop(guilds[guild], channel) == guilds[guild]);
    }
    assert(data_after_stop(guilds, guild, channel) =~= guilds);
}

/// A stop leaves the settings of every channel as they are, but for the
/// active flag of the channel that is stopped; it gives no channel
/// settings that had none.
pub proof fn stop_keeps_settings(
    guilds: Map<u64, GuildSettings>,
    guild: u64,
    channel: u64,
    other_guild: u64,
    other_channel: u64,
)
    ensures
        settings_at(data_after_stop(guilds, guild, channel), other_guild, other_channel)
            == match settings_at(guilds, other_guild, other_channel) {
            Some(settings) => if other_guild == guild && other_channel == channel {
                Some(ChannelSettings { active: false, ..settings })
            } else {
                Some(settings)
            },
            None => None,
        },
{
}

} // verus!
