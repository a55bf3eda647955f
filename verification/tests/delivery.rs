use postbot::configuration::{ChannelConfiguration, NsfwMode, TimeoutMode};
use postbot::delivery::{decide, no_match_text, step, TaskAction, TaskEvent, TaskState};

fn config(active: bool, mode: NsfwMode) -> ChannelConfiguration {
    ChannelConfiguration {
        active,
        timeout: 10,
        timeout_mode: TimeoutMode::Normal,
        nsfw_mode: mode,
        tags: vec!["cat".to_string(), "-dog".to_string()],
    }
}

#[test]
fn launch_of_active_channel_fetches_with_random_order_and_limit() {
    let settings = config(true, NsfwMode::NSFW);
    let (state, action) = step(TaskState::Idle, TaskEvent::Started, Some(&settings));
    assert_eq!(state, TaskState::Fetching);
    match action {
        TaskAction::Fetch { tags, mode } => {
            assert_eq!(tags, vec!["cat", "-dog", "order:random", "limit:20"]);
            assert_eq!(mode, NsfwMode::NSFW);
        }
        other => panic!("unexpected action {other:?}"),
    }
}

#[test]
fn launch_of_inactive_channel_ends_the_task() {
    let settings = config(false, NsfwMode::SFW);
    let (state, action) = step(TaskState::Idle, TaskEvent::Started, Some(&settings));
    assert_eq!(state, TaskState::Cancelled);
    assert!(matches!(action, TaskAction::Exit));
}

#[test]
fn launch_without_settings_ends_the_task() {
    let (state, action) = step(TaskState::Idle, TaskEvent::Started, None);
    assert_eq!(state, TaskState::Cancelled);
    assert!(matches!(action, TaskAction::Exit));
}

#[test]
fn channel_deactivated_during_the_wait_ends_the_task() {
    let settings = config(false, NsfwMode::SFW);
    let (state, action) = step(TaskState::Waiting, TaskEvent::WaitElapsed, Some(&settings));
    assert_eq!(state, TaskState::Cancelled);
    assert!(matches!(action, TaskAction::Exit));
}

#[test]
fn found_post_is_rendered() {
    let settings = config(true, NsfwMode::SFW);
    let (state, action) = step(TaskState::Fetching, TaskEvent::PostFound, Some(&settings));
    assert_eq!(state, TaskState::Publishing);
    assert!(matches!(action, TaskAction::Render));
}

#[test]
fn rendered_post_is_published_with_empty_vote_count() {
    let settings = config(true, NsfwMode::SFW);
    let (state, action) = step(TaskState::Publishing, TaskEvent::Rendered, Some(&settings));
    assert_eq!(state, TaskState::Waiting);
    match action {
        TaskAction::Publish { label, minutes } => {
            assert_eq!(label, "Delete (0/4)");
            assert_eq!(minutes, 10);
        }
        other => panic!("unexpected action {other:?}"),
    }
}

#[test]
fn no_match_notice_differs_between_modes() {
    let sfw = no_match_text(NsfwMode::SFW);
    let nsfw = no_match_text(NsfwMode::NSFW);
    assert_ne!(sfw, nsfw);
    assert_eq!(
        sfw,
        "No sfw post matches the tags. Use fewer tags, or switch this channel to nsfw."
    );
    assert_eq!(nsfw, "No post matches the tags, not even in nsfw mode. Use fewer tags.");
}

#[test]
fn no_match_notifies_and_goes_on_to_the_wait() {
    for mode in [NsfwMode::SFW, NsfwMode::NSFW] {
        let settings = config(true, mode);
        let (state, action) = step(TaskState::Fetching, TaskEvent::NoMatch, Some(&settings));
        assert_eq!(state, TaskState::Waiting);
        match action {
            TaskAction::Notify { text, minutes } => {
                assert_eq!(text, no_match_text(mode));
                assert_eq!(minutes, 10);
            }
            other => panic!("unexpected action {other:?}"),
        }
    }
}

#[test]
fn no_match_without_settings_uses_sfw_notice_and_default_wait() {
    let (state, action) = step(TaskState::Fetching, TaskEvent::NoMatch, None);
    assert_eq!(state, TaskState::Waiting);
    match action {
        TaskAction::Notify { text, minutes } => {
            assert_eq!(text, no_match_text(NsfwMode::SFW));
            assert_eq!(minutes, 40);
        }
        other => panic!("unexpected action {other:?}"),
    }
}

#[test]
fn failed_fetch_notifies_and_goes_on_to_the_wait() {
    let settings = config(true, NsfwMode::SFW);
    let (state, action) = step(TaskState::Fetching, TaskEvent::FetchFailed, Some(&settings));
    assert_eq!(state, TaskState::Waiting);
    match action {
        TaskAction::Notify { text, minutes } => {
            assert_eq!(
                text,
                "The search failed this time. The next one follows after the usual wait."
            );
            assert_eq!(minutes, 10);
        }
        other => panic!("unexpected action {other:?}"),
    }
}

#[test]
fn failed_render_ends_the_task_with_a_notice() {
    let settings = config(true, NsfwMode::SFW);
    let (state, action) = step(
        TaskState::Publishing,
        TaskEvent::RenderFailed("No url on post object".to_string()),
        Some(&settings),
    );
    assert_eq!(state, TaskState::Cancelled);
    match action {
        TaskAction::Abort { text } => {
            assert_eq!(text, "Error: No url on post object. Stopping for this channel");
        }
        other => panic!("unexpected action {other:?}"),
    }
}

#[test]
fn elapsed_wait_begins_the_next_cycle() {
    let settings = config(true, NsfwMode::SFW);
    let (state, action) = step(TaskState::Waiting, TaskEvent::WaitElapsed, Some(&settings));
    assert_eq!(state, TaskState::Fetching);
    assert!(matches!(action, TaskAction::Fetch { .. }));
}

#[test]
fn stop_during_the_wait_skips_the_next_fetch() {
    let settings = config(true, NsfwMode::SFW);
    let (state, action) = step(TaskState::Waiting, TaskEvent::StopRequested, Some(&settings));
    assert_eq!(state, TaskState::Cancelled);
    assert!(matches!(action, TaskAction::Exit));
    let later = [
        TaskEvent::WaitElapsed,
        TaskEvent::Started,
        TaskEvent::PostFound,
        TaskEvent::NoMatch,
        TaskEvent::FetchFailed,
        TaskEvent::Rendered,
        TaskEvent::RenderFailed("x".to_string()),
        TaskEvent::StopRequested,
    ];
    let mut state = state;
    for event in later {
        let (next, action) = step(state, event, Some(&settings));
        assert_eq!(next, TaskState::Cancelled);
        assert!(matches!(action, TaskAction::Nothing));
        state = next;
    }
}

#[test]
fn stop_cancels_in_every_running_state() {
    let settings = config(true, NsfwMode::SFW);
    for state in [TaskState::Idle, TaskState::Fetching, TaskState::Publishing, TaskState::Waiting] {
        let (next, action) = step(state, TaskEvent::StopRequested, Some(&settings));
        assert_eq!(next, TaskState::Cancelled);
        assert!(matches!(action, TaskAction::Exit));
    }
}

#[test]
fn unexpected_event_is_ignored() {
    let settings = config(true, NsfwMode::SFW);
    let (state, action) = step(TaskState::Waiting, TaskEvent::PostFound, Some(&settings));
    assert_eq!(state, TaskState::Waiting);
    assert!(matches!(action, TaskAction::Nothing));
    let (state, action) = step(TaskState::Fetching, TaskEvent::WaitElapsed, Some(&settings));
    assert_eq!(state, TaskState::Fetching);
    assert!(matches!(action, TaskAction::Nothing));
    let (state, action) = step(TaskState::Idle, TaskEvent::Rendered, Some(&settings));
    assert_eq!(state, TaskState::Idle);
    assert!(matches!(action, TaskAction::Nothing));
}

#[test]
fn decide_takes_the_minutes_as_given() {
    let settings = config(true, NsfwMode::SFW);
    let (state, action) = decide(TaskState::Publishing, TaskEvent::Rendered, Some(&settings), 7);
    assert_eq!(state, TaskState::Waiting);
    assert!(matches!(action, TaskAction::Publish { minutes: 7, .. }));
    let (_, action) = decide(TaskState::Fetching, TaskEvent::NoMatch, Some(&settings), 9);
    assert!(matches!(action, TaskAction::Notify { minutes: 9, .. }));
}

#[test]
fn random_mode_draws_the_wait_between_minimum_and_timeout() {
    let mut settings = config(true, NsfwMode::SFW);
    settings.timeout_mode = TimeoutMode::Random;
    for _ in 0..200 {
        let (_, action) = step(TaskState::Publishing, TaskEvent::Rendered, Some(&settings));
        match action {
            TaskAction::Publish { minutes, .. } => assert!((3..=10).contains(&minutes)),
            other => panic!("unexpected action {other:?}"),
        }
    }
    settings.timeout = 2;
    let (_, action) = step(TaskState::Fetching, TaskEvent::NoMatch, Some(&settings));
    assert!(matches!(action, TaskAction::Notify { minutes: 3, .. }));
}

#[test]
fn full_cycle_runs_fetch_publish_wait_fetch() {
    let settings = config(true, NsfwMode::SFW);
    let (state, _) = step(TaskState::Idle, TaskEvent::Started, Some(&settings));
    assert_eq!(state, TaskState::Fetching);
    let (state, _) = step(state, TaskEvent::PostFound, Some(&settings));
    assert_eq!(state, TaskState::Publishing);
    let (state, _) = step(state, TaskEvent::Rendered, Some(&settings));
    assert_eq!(state, TaskState::Waiting);
    let (state, _) = step(state, TaskEvent::WaitElapsed, Some(&settings));
    assert_eq!(state, TaskState::Fetching);
}
