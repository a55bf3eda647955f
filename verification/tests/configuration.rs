use postbot::configuration::{ChannelConfiguration, GuildConfiguration, NsfwMode, TimeoutMode};
use postbot::error::Error;

#[test]
fn default_channel_is_inactive_with_forty_minutes() {
    let config = ChannelConfiguration::default();
    assert!(!config.active);
    assert_eq!(config.timeout, 40);
    assert_eq!(config.timeout_mode, TimeoutMode::Normal);
    assert_eq!(config.nsfw_mode, NsfwMode::SFW);
    assert_eq!(config.tags.len(), 30);
    assert_eq!(config.tags[0], "pokémon_(species)");
    assert_eq!(config.tags[1], "-abs");
    assert_eq!(config.tags[22], "-pokémorph");
    assert_eq!(config.tags[29], "score:>5");
}

#[test]
fn default_modes() {
    assert_eq!(NsfwMode::default(), NsfwMode::SFW);
    assert_eq!(TimeoutMode::default(), TimeoutMode::Normal);
}

#[test]
fn mode_names() {
    assert_eq!(NsfwMode::SFW.name(), "sfw");
    assert_eq!(NsfwMode::NSFW.name(), "nsfw");
    assert_eq!(TimeoutMode::Normal.name(), "normal");
    assert_eq!(TimeoutMode::Random.name(), "random");
    assert_eq!(NsfwMode::from_name("SFW"), Some(NsfwMode::SFW));
    assert_eq!(NsfwMode::from_name("nsfw"), Some(NsfwMode::NSFW));
    assert_eq!(NsfwMode::from_name(""), None);
    assert_eq!(TimeoutMode::from_name("Random"), Some(TimeoutMode::Random));
    assert_eq!(TimeoutMode::from_name("normal"), Some(TimeoutMode::Normal));
    assert_eq!(TimeoutMode::from_name("norm"), None);
}

#[test]
fn error_messages() {
    assert_eq!(Error::CommandNotRunInGuild.message(), "Command must be run in guild");
    assert_eq!(Error::NoTagsSet.message(), "No tags have been set");
    assert_eq!(Error::MinTimeoutTooLow.message(), "Minimum timeout is too low");
    assert_eq!(Error::MaxTimeoutTooHigh.message(), "Maximum timeout is too high");
}

#[test]
fn clone_copies_all_settings() {
    let config = ChannelConfiguration {
        active: true,
        timeout: 5,
        timeout_mode: TimeoutMode::Random,
        nsfw_mode: NsfwMode::NSFW,
        tags: vec!["a".to_string()],
    };
    let copy = config.clone();
    assert!(copy.active);
    assert_eq!(copy.timeout, 5);
    assert_eq!(copy.timeout_mode, TimeoutMode::Random);
    assert_eq!(copy.nsfw_mode, NsfwMode::NSFW);
    assert_eq!(copy.tags, vec!["a"]);
}

#[test]
fn guild_insert_returns_previous_settings() {
    let mut guild = GuildConfiguration::default();
    assert!(guild.insert(1, ChannelConfiguration::default()).is_none());
    let mut config = ChannelConfiguration::default();
    config.timeout = 9;
    let previous = guild.insert(1, config).unwrap();
    assert_eq!(previous.timeout, 40);
    assert_eq!(guild.timeout(&1), Some(9));
}

#[test]
fn guild_start_keeps_first_signal() {
    let mut guild = GuildConfiguration::default();
    let (first, first_end) = tokio::sync::watch::channel(false);
    let (second, second_end) = tokio::sync::watch::channel(false);
    guild.start(1, first);
    assert!(guild.is_live(1));
    assert!(guild.is_active(1));
    guild.start(1, second);
    assert!(guild.stop(1));
    assert!(*first_end.borrow());
    assert!(!*second_end.borrow());
    assert!(!guild.is_live(1));
    assert!(!guild.is_active(1));
    assert!(!guild.stop(1));
}

#[test]
fn guild_stop_all_deactivates_every_channel() {
    let mut guild = GuildConfiguration::default();
    let (sender, end) = tokio::sync::watch::channel(false);
    guild.start(1, sender);
    let mut config = ChannelConfiguration::default();
    config.active = true;
    config.timeout = 8;
    guild.insert(2, config);
    guild.stop_all();
    assert!(*end.borrow());
    assert!(!guild.is_live(1));
    assert!(!guild.is_active(1));
    assert!(!guild.is_active(2));
    assert_eq!(guild.timeout(&2), Some(8));
}

#[test]
fn guild_getters_and_setters() {
    let mut guild = GuildConfiguration::default();
    assert_eq!(guild.timeout(&1), None);
    assert_eq!(guild.timeout_mode(&1), None);
    assert_eq!(guild.nsfw_mode(&1), None);
    assert_eq!(guild.tags(&1), None);
    assert!(!guild.is_active(1));
    guild.set_timeout(1, 77);
    assert_eq!(guild.timeout(&1), Some(77));
    assert_eq!(guild.timeout_mode(&1), Some(TimeoutMode::Normal));
    guild.set_timeout_mode(1, TimeoutMode::Random);
    guild.set_nsfw_mode(1, NsfwMode::NSFW);
    guild.set_tags(1, vec!["t".to_string()]);
    assert_eq!(guild.timeout(&1), Some(77));
    assert_eq!(guild.timeout_mode(&1), Some(TimeoutMode::Random));
    assert_eq!(guild.nsfw_mode(&1), Some(NsfwMode::NSFW));
    assert_eq!(guild.tags(&1), Some(&vec!["t".to_string()]));
    assert!(!guild.is_active(1));
    let (live, copy) = guild.snapshot(1);
    assert!(!live);
    assert_eq!(copy.unwrap().timeout, 77);
}

#[test]
fn guild_start_active_launches_each_active_channel() {
    let mut guild = GuildConfiguration::default();
    let mut config = ChannelConfiguration::default();
    config.active = true;
    guild.insert(1, config.clone());
    guild.insert(2, ChannelConfiguration::default());
    guild.insert(3, config);
    let launches = guild.start_active(9);
    let mut channels: Vec<u64> = launches.iter().map(|l| l.channel).collect();
    channels.sort();
    assert_eq!(channels, vec![1, 3]);
    assert!(launches.iter().all(|l| l.guild == 9 && l.delay_seconds < 180));
    assert!(guild.start_active(9).is_empty());
}

#[test]
fn guild_stop_of_unknown_channel_changes_nothing() {
    let mut guild = GuildConfiguration::default();
    assert!(!guild.stop(5));
    assert_eq!(guild.timeout(&5), None);
    assert_eq!(guild.tags(&5), None);
    assert!(!guild.is_live(5));
    assert!(!guild.task_ended(5));
    assert_eq!(guild.timeout(&5), None);
}

#[test]
fn guild_task_ended_forgets_the_signal_without_sending() {
    let mut guild = GuildConfiguration::default();
    let (sender, end) = tokio::sync::watch::channel(false);
    guild.start(1, sender);
    assert!(guild.task_ended(1));
    assert!(!*end.borrow());
    assert!(!guild.is_live(1));
    assert!(!guild.is_active(1));
    assert_eq!(guild.timeout(&1), Some(40));
}
