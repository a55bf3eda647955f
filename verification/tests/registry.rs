use postbot::configuration::{ChannelConfiguration, GuildConfiguration, NsfwMode, TimeoutMode};
use postbot::error::Error;
use postbot::registry::Data;

fn active_config() -> ChannelConfiguration {
    let mut config = ChannelConfiguration::default();
    config.active = true;
    config
}

#[test]
fn start_registers_one_task() {
    let mut data = Data::new();
    assert!(!data.is_live(1, 10));
    let signal = data.start(1, 10);
    assert!(signal.is_some());
    assert!(data.is_live(1, 10));
    assert!(data.is_active(1, 10));
    assert!(!*signal.unwrap().borrow());
}

#[test]
fn second_start_is_a_no_op() {
    let mut data = Data::new();
    let first = data.start(1, 10).unwrap();
    for _ in 0..10 {
        assert!(data.start(1, 10).is_none());
    }
    assert!(data.is_live(1, 10));
    assert!(!first.has_changed().unwrap());
}

#[test]
fn stop_signals_the_task_and_forgets_it() {
    let mut data = Data::new();
    let signal = data.start(1, 10).unwrap();
    assert!(data.stop(1, 10));
    assert!(!data.is_live(1, 10));
    assert!(!data.is_active(1, 10));
    assert!(*signal.borrow());
}

#[test]
fn stop_of_unknown_channel_changes_nothing() {
    let mut data = Data::new();
    assert!(!data.stop(1, 10));
    assert!(!data.is_live(1, 10));
    assert_eq!(data.timeout(1, 10), None);
    assert_eq!(data.tags(1, 10), None);
    assert_eq!(data.nsfw_mode(1, 10), None);
    assert!(data.channel(1, 10).is_none());
    assert_eq!(data.search_query(1, 10).unwrap_err(), Error::NoTagsSet);
    data.set_timeout(1, 10, 15);
    assert!(!data.stop(1, 11));
    assert_eq!(data.timeout(1, 11), None);
    assert_eq!(data.tags(1, 11), None);
    assert_eq!(data.search_query(1, 11).unwrap_err(), Error::NoTagsSet);
    assert_eq!(data.timeout(1, 10), Some(15));
}

#[test]
fn stop_without_task_marks_configured_channel_inactive() {
    let mut data = Data::new();
    let mut guild = GuildConfiguration::default();
    guild.insert(10, active_config());
    data.insert(1, guild);
    assert!(data.is_active(1, 10));
    assert!(!data.stop(1, 10));
    assert!(!data.is_active(1, 10));
    assert_eq!(data.timeout(1, 10), Some(40));
}

#[test]
fn task_that_ended_by_itself_can_be_started_again() {
    let mut data = Data::new();
    let first = data.start(1, 10).unwrap();
    assert!(data.start(1, 10).is_none());
    assert!(data.task_ended(1, 10));
    assert!(!data.is_live(1, 10));
    assert!(!data.is_active(1, 10));
    assert!(!*first.borrow());
    let second = data.start(1, 10);
    assert!(second.is_some());
    assert!(data.is_live(1, 10));
    assert!(data.is_active(1, 10));
    assert!(!data.task_ended(2, 10));
    assert!(!data.task_ended(1, 11));
    assert_eq!(data.timeout(1, 11), None);
}

#[test]
fn start_of_running_task_keeps_its_signal() {
    let mut data = Data::new();
    let first = data.start(1, 10).unwrap();
    assert!(data.start(1, 10).is_none());
    assert!(!first.has_changed().unwrap());
    assert!(!*first.borrow());
    assert!(data.stop(1, 10));
    assert!(*first.borrow());
}

#[test]
fn requests_for_one_channel_leave_the_signals_of_others() {
    let mut data = Data::new();
    let a = data.start(1, 10).unwrap();
    let b = data.start(1, 11).unwrap();
    let c = data.start(2, 10).unwrap();
    data.set_timeout(1, 10, 9);
    data.set_tags(1, 11, vec![]);
    data.set_nsfw_mode(2, 10, NsfwMode::NSFW);
    data.set_random_timeout(1, 10, true);
    assert!(data.start(1, 11).is_none());
    assert!(data.start_all().is_empty());
    assert!(data.task_ended(1, 11));
    for signal in [&a, &c] {
        assert!(!signal.has_changed().unwrap());
        assert!(!*signal.borrow());
    }
    assert!(!*b.borrow());
    assert!(data.stop(1, 10));
    assert!(*a.borrow());
    assert!(!*c.borrow());
    assert!(data.stop(2, 10));
    assert!(*c.borrow());
}

#[test]
fn stop_then_start_runs_exactly_one_task() {
    let mut data = Data::new();
    let first = data.start(1, 10).unwrap();
    assert!(data.stop(1, 10));
    let second = data.start(1, 10);
    assert!(second.is_some());
    assert!(data.start(1, 10).is_none());
    assert!(data.is_live(1, 10));
    assert!(*first.borrow());
    assert!(!*second.unwrap().borrow());
}

#[test]
fn starts_and_stops_in_any_order_never_run_two_tasks() {
    let mut data = Data::new();
    let mut running = 0i64;
    let requests = [true, true, false, true, false, false, true, true, true, false, true];
    for (i, start) in requests.iter().enumerate() {
        if *start {
            if data.start(3, 30).is_some() {
                running += 1;
            }
        } else if data.stop(3, 30) {
            running -= 1;
        }
        assert!((0..=1).contains(&running), "after request {i}");
        assert_eq!(data.is_live(3, 30), running == 1);
    }
}

#[test]
fn channels_are_independent() {
    let mut data = Data::new();
    let a = data.start(1, 10).unwrap();
    let b = data.start(1, 11).unwrap();
    let c = data.start(2, 10).unwrap();
    assert!(data.stop(1, 10));
    assert!(*a.borrow());
    assert!(!*b.borrow());
    assert!(!*c.borrow());
    assert!(data.is_live(1, 11));
    assert!(data.is_live(2, 10));
}

#[test]
fn stop_all_signals_every_task() {
    let mut data = Data::new();
    let a = data.start(1, 10).unwrap();
    let b = data.start(1, 11).unwrap();
    let c = data.start(2, 10).unwrap();
    data.set_timeout(2, 20, 5);
    data.stop_all();
    for signal in [&a, &b, &c] {
        assert!(*signal.borrow());
    }
    for (guild, channel) in [(1, 10), (1, 11), (2, 10), (2, 20)] {
        assert!(!data.is_live(guild, channel));
        assert!(!data.is_active(guild, channel));
    }
    assert_eq!(data.timeout(2, 20), Some(5));
    assert!(data.start(1, 10).is_some());
}

#[test]
fn stop_all_on_empty_registry() {
    let mut data = Data::new();
    data.stop_all();
    assert!(!data.is_live(1, 1));
}

#[test]
fn start_all_launches_active_channels_once() {
    let mut data = Data::new();
    let mut guild = GuildConfiguration::default();
    guild.insert(10, active_config());
    guild.insert(11, ChannelConfiguration::default());
    guild.insert(12, active_config());
    data.insert(1, guild);
    let mut other = GuildConfiguration::default();
    other.insert(10, active_config());
    data.insert(2, other);
    let launches = data.start_all();
    let mut started: Vec<(u64, u64)> = launches.iter().map(|l| (l.guild, l.channel)).collect();
    started.sort();
    assert_eq!(started, vec![(1, 10), (1, 12), (2, 10)]);
    for launch in &launches {
        assert!(launch.delay_seconds < 180);
        assert!(!*launch.stop_signal.borrow());
    }
    assert!(data.is_live(1, 10));
    assert!(!data.is_live(1, 11));
    assert!(data.is_live(1, 12));
    assert!(data.is_live(2, 10));
    assert!(data.start_all().is_empty());
    assert!(data.start(1, 10).is_none());
}

#[test]
fn start_all_skips_running_tasks() {
    let mut data = Data::new();
    let signal = data.start(1, 10).unwrap();
    let launches = data.start_all();
    assert!(launches.is_empty());
    assert!(!*signal.borrow());
}

#[test]
fn settings_start_from_the_defaults() {
    let mut data = Data::new();
    assert_eq!(data.timeout(1, 10), None);
    assert_eq!(data.tags(1, 10), None);
    assert_eq!(data.nsfw_mode(1, 10), None);
    assert_eq!(data.random_timeout(1, 10), None);
    data.set_nsfw_mode(1, 10, NsfwMode::NSFW);
    assert_eq!(data.nsfw_mode(1, 10), Some(NsfwMode::NSFW));
    assert_eq!(data.timeout(1, 10), Some(40));
    assert_eq!(data.random_timeout(1, 10), Some(false));
    assert_eq!(data.tags(1, 10).unwrap().len(), 30);
    assert!(!data.is_active(1, 10));
}

#[test]
fn setters_change_one_setting() {
    let mut data = Data::new();
    data.set_timeout(1, 10, 12);
    data.set_tags(1, 10, vec!["a".to_string(), "b".to_string()]);
    data.set_random_timeout(1, 10, true);
    data.set_nsfw_mode(1, 10, NsfwMode::NSFW);
    assert_eq!(data.timeout(1, 10), Some(12));
    assert_eq!(data.tags(1, 10), Some(vec!["a".to_string(), "b".to_string()]));
    assert_eq!(data.random_timeout(1, 10), Some(true));
    assert_eq!(data.timeout_mode(1, 10), Some(TimeoutMode::Random));
    assert_eq!(data.nsfw_mode(1, 10), Some(NsfwMode::NSFW));
    data.set_random_timeout(1, 10, false);
    assert_eq!(data.timeout_mode(1, 10), Some(TimeoutMode::Normal));
    data.set_timeout_mode(1, 10, TimeoutMode::Random);
    assert_eq!(data.random_timeout(1, 10), Some(true));
    assert_eq!(data.timeout(1, 11), None);
    assert_eq!(data.timeout(2, 10), None);
}

#[test]
fn setters_keep_the_task_running() {
    let mut data = Data::new();
    let signal = data.start(1, 10).unwrap();
    data.set_timeout(1, 10, 12);
    data.set_tags(1, 10, vec![]);
    assert!(data.is_live(1, 10));
    assert!(data.is_active(1, 10));
    assert!(!*signal.borrow());
}

#[test]
fn search_query_adds_order_and_limit() {
    let mut data = Data::new();
    assert_eq!(data.search_query(1, 10).unwrap_err(), Error::NoTagsSet);
    data.set_tags(1, 10, vec!["fox".to_string()]);
    let (mode, tags) = data.search_query(1, 10).unwrap();
    assert_eq!(mode, NsfwMode::SFW);
    assert_eq!(tags, vec!["fox", "order:random", "limit:20"]);
    data.set_nsfw_mode(1, 10, NsfwMode::NSFW);
    data.set_tags(1, 10, vec![]);
    let (mode, tags) = data.search_query(1, 10).unwrap();
    assert_eq!(mode, NsfwMode::NSFW);
    assert_eq!(tags, vec!["order:random", "limit:20"]);
}

#[test]
fn channel_returns_a_copy_of_the_settings() {
    let mut data = Data::new();
    assert!(data.channel(1, 10).is_none());
    data.set_timeout(1, 10, 9);
    let copy = data.channel(1, 10).unwrap();
    assert_eq!(copy.timeout, 9);
    assert!(!copy.active);
    assert_eq!(copy.timeout_mode, TimeoutMode::Normal);
    assert_eq!(copy.nsfw_mode, NsfwMode::SFW);
}

#[test]
fn insert_over_a_guild_stops_its_tasks() {
    let mut data = Data::new();
    let running = data.start(1, 10).unwrap();
    let elsewhere = data.start(2, 10).unwrap();
    let mut guild = GuildConfiguration::default();
    guild.insert(10, active_config());
    data.insert(1, guild);
    assert!(*running.borrow());
    assert!(!*elsewhere.borrow());
    assert!(!data.is_live(1, 10));
    assert!(data.is_active(1, 10));
    assert!(data.is_live(2, 10));
    assert!(data.start(1, 10).is_some());
}
