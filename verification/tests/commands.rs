use postbot::commands::{nsfw, start, stop, tags, timeout, timeout_mode};
use postbot::configuration::{NsfwMode, TimeoutMode};
use postbot::error::Error;
use postbot::registry::Data;

#[test]
fn start_command_answers_and_registers() {
    let mut data = Data::new();
    let (content, signal) = start(&mut data, Some(1), 1234).unwrap();
    assert_eq!(content, "Channel <#1234> will receive images.");
    assert!(signal.is_some());
    assert!(data.is_live(1, 1234));
    let (content, signal) = start(&mut data, Some(1), 1234).unwrap();
    assert_eq!(content, "Channel <#1234> will receive images.");
    assert!(signal.is_none());
}

#[test]
fn start_command_outside_guild_fails() {
    let mut data = Data::new();
    assert_eq!(start(&mut data, None, 5).unwrap_err(), Error::CommandNotRunInGuild);
    assert!(!data.is_live(0, 5));
}

#[test]
fn stop_command_answers_and_stops() {
    let mut data = Data::new();
    let signal = data.start(1, 77).unwrap();
    assert_eq!(stop(&mut data, Some(1), 77).unwrap(), "<#77> will no longer receive images.");
    assert!(!data.is_live(1, 77));
    assert!(*signal.borrow());
    assert_eq!(stop(&mut data, None, 77).unwrap_err(), Error::CommandNotRunInGuild);
}

#[test]
fn timeout_command_shows_and_sets() {
    let mut data = Data::new();
    assert_eq!(timeout(&mut data, Some(1), 2, None).unwrap(), "Timeout is not set.\n");
    assert_eq!(
        timeout(&mut data, Some(1), 2, Some(15)).unwrap(),
        "Old timeout is not set.\nNew timeout is: 15 minutes"
    );
    assert_eq!(data.timeout(1, 2), Some(15));
    assert_eq!(timeout(&mut data, Some(1), 2, None).unwrap(), "15");
    assert_eq!(
        timeout(&mut data, Some(1), 2, Some(720)).unwrap(),
        "Old timeout: 15 minutes\nNew timeout: 720 minutes"
    );
    assert_eq!(data.timeout(1, 2), Some(720));
}

#[test]
fn timeout_command_refuses_the_minimum_and_less() {
    let mut data = Data::new();
    data.set_timeout(1, 2, 15);
    for wanted in [0, 1, 2, 3] {
        assert_eq!(
            timeout(&mut data, Some(1), 2, Some(wanted)).unwrap(),
            "Timeout must be greater than 3"
        );
        assert_eq!(data.timeout(1, 2), Some(15));
    }
    assert_eq!(
        timeout(&mut data, Some(1), 2, Some(4)).unwrap(),
        "Old timeout: 15 minutes\nNew timeout: 4 minutes"
    );
    assert_eq!(data.timeout(1, 2), Some(4));
}

#[test]
fn timeout_command_outside_guild_fails() {
    let mut data = Data::new();
    assert_eq!(timeout(&mut data, None, 2, Some(15)).unwrap_err(), Error::CommandNotRunInGuild);
    assert_eq!(data.timeout(0, 2), None);
}

#[test]
fn nsfw_command_shows_and_sets() {
    let mut data = Data::new();
    assert_eq!(nsfw(&mut data, Some(1), 2, None).unwrap(), "Nsfw mode is not set.\n");
    assert_eq!(
        nsfw(&mut data, Some(1), 2, Some(NsfwMode::NSFW)).unwrap(),
        "Old nsfw mode is not set.\nNew nsfw mode: nsfw"
    );
    assert_eq!(data.nsfw_mode(1, 2), Some(NsfwMode::NSFW));
    assert_eq!(nsfw(&mut data, Some(1), 2, None).unwrap(), "nsfw");
    assert_eq!(
        nsfw(&mut data, Some(1), 2, Some(NsfwMode::SFW)).unwrap(),
        "Old nsfw mode: nsfw\nNew nsfw mode: sfw"
    );
    assert_eq!(data.nsfw_mode(1, 2), Some(NsfwMode::SFW));
    assert_eq!(nsfw(&mut data, None, 2, None).unwrap_err(), Error::CommandNotRunInGuild);
}

#[test]
fn timeout_mode_command_shows_and_sets() {
    let mut data = Data::new();
    assert_eq!(timeout_mode(&mut data, Some(1), 2, None).unwrap(), "Timeout mode is not set.\n");
    assert_eq!(
        timeout_mode(&mut data, Some(1), 2, Some(TimeoutMode::Random)).unwrap(),
        "Old timeout mode is not set.\nNew timeout mode: random"
    );
    assert_eq!(data.timeout_mode(1, 2), Some(TimeoutMode::Random));
    assert_eq!(timeout_mode(&mut data, Some(1), 2, None).unwrap(), "random");
    assert_eq!(
        timeout_mode(&mut data, Some(1), 2, Some(TimeoutMode::Normal)).unwrap(),
        "Old timeout mode: random\nNew timeout mode: normal"
    );
    assert_eq!(
        timeout_mode(&mut data, None, 2, Some(TimeoutMode::Normal)).unwrap_err(),
        Error::CommandNotRunInGuild
    );
}

#[test]
fn tags_command_shows_and_sets() {
    let mut data = Data::new();
    assert_eq!(tags(&mut data, Some(1), 2, None).unwrap(), "Tags are not set.\n");
    assert_eq!(
        tags(&mut data, Some(1), 2, Some("  fox \t -dog\nscore:>5 ")).unwrap(),
        "Old tags are not set.\nNew tags: fox -dog score:>5"
    );
    assert_eq!(
        data.tags(1, 2),
        Some(vec!["fox".to_string(), "-dog".to_string(), "score:>5".to_string()])
    );
    assert_eq!(tags(&mut data, Some(1), 2, None).unwrap(), "fox -dog score:>5");
    assert_eq!(
        tags(&mut data, Some(1), 2, Some("cat")).unwrap(),
        "Old tags: fox -dog score:>5\nNew tags: cat"
    );
    assert_eq!(tags(&mut data, Some(1), 2, Some("")).unwrap(), "Old tags: cat\nNew tags: ");
    assert_eq!(data.tags(1, 2), Some(vec![]));
    assert_eq!(tags(&mut data, None, 2, Some("x")).unwrap_err(), Error::CommandNotRunInGuild);
}

#[test]
fn stop_command_on_unknown_channel_leaves_it_without_settings() {
    let mut data = Data::new();
    assert_eq!(stop(&mut data, Some(1), 5).unwrap(), "<#5> will no longer receive images.");
    assert_eq!(data.timeout(1, 5), None);
    assert_eq!(tags(&mut data, Some(1), 5, None).unwrap(), "Tags are not set.\n");
    assert_eq!(timeout(&mut data, Some(1), 5, None).unwrap(), "Timeout is not set.\n");
    assert_eq!(data.search_query(1, 5).unwrap_err(), Error::NoTagsSet);
}
