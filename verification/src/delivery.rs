//! The delivery task of one channel as a state machine. Whoever runs the
//! task performs the action that a step returns and reports what came of it
//! as the next event.

use vstd::prelude::*;
use vstd::string::StringExecFns;
use crate::configuration::{ChannelConfiguration, ChannelSettings, NsfwMode, TimeoutMode};
use crate::constants::DELETE_QUORUM;
use crate::layout::{delete_button_label, delete_label};
use crate::random::{delay_high, delay_low, sleep_minutes};
use crate::text::{clone_texts, views};

verus! {

/// Where a delivery task stands. The state names what the task waits for.
#[derive(Debug, Clone, Copy, PartialEq, Eq, Structural)]
pub enum TaskState {
    /// Launched, no cycle begun yet.
    Idle,
    /// A search is under way.
    Fetching,
    /// A post was found and is being rendered.
    Publishing,
    /// The cycle is over and the task sleeps.
    Waiting,
    /// The task has ended. It never leaves this state.
    Cancelled,
}

/// What happened outside the task since its last step.
#[derive(Debug)]
pub enum TaskEvent {
    /// The task was launched and its start-up delay is over.
    Started,
    /// The search returned a post.
    PostFound,
    /// The search returned no post for the tags.
    NoMatch,
    /// The search failed.
    FetchFailed,
    /// The post was rendered.
    Rendered,
    /// The post could not be rendered, with the reason.
    RenderFailed(String),
    /// The sleep ran to its end.
    WaitElapsed,
    /// The stop signal arrived.
    StopRequested,
}

/// A `TaskEvent` as plain values.
pub enum TaskEventView {
    Started,
    PostFound,
    NoMatch,
    FetchFailed,
    Rendered,
    RenderFailed(Seq<char>),
    WaitElapsed,
    StopRequested,
}

impl View for TaskEvent {
    type V = TaskEventView;

    open spec fn view(&self) -> TaskEventView {
        match self {
            TaskEvent::Started => TaskEventView::Started,
            TaskEvent::PostFound => TaskEventView::PostFound,
            TaskEvent::NoMatch => TaskEventView::NoMatch,
            TaskEvent::FetchFailed => TaskEventView::FetchFailed,
            TaskEvent::Rendered => TaskEventView::Rendered,
            TaskEvent::RenderFailed(reason) => TaskEventView::RenderFailed(reason@),
            TaskEvent::WaitElapsed => TaskEventView::WaitElapsed,
            TaskEvent::StopRequested => TaskEventView::StopRequested,
        }
    }
}

/// What the task's runner has to do next.
#[derive(Debug)]
pub enum TaskAction {
    /// Keep waiting for the event that the state names.
    Nothing,
    /// Search the source that `mode` names for one post with `tags`.
    Fetch { tags: Vec<String>, mode: NsfwMode },
    /// Render the post that was found.
    Render,
    /// Send the rendered post with a delete button that shows `label`,
    /// then sleep for `minutes` or until the stop signal.
    Publish { label: String, minutes: u64 },
    /// Send `text` to the channel, then sleep for `minutes` or until the
    /// stop signal.
    Notify { text: String, minutes: u64 },
    /// Send `text` to the channel and end the task. The task has ended by
    /// itself: the runner tells the registry so, with `Data::task_ended`,
    /// so that a later start launches a new task.
    Abort { text: String },
    /// End the task. Unless the stop signal has come, by which the
    /// registry has forgotten the task already, the runner tells the
    /// registry that the task has ended, with `Data::task_ended`.
    Exit,
}

/// A `TaskAction` as plain values.
pub enum TaskActionView {
    Nothing,
    Fetch { tags: Seq<Seq<char>>, mode: NsfwMode },
    Render,
    Publish { label: Seq<char>, minutes: u64 },
    Notify { text: Seq<char>, minutes: u64 },
    Abort { text: Seq<char> },
    Exit,
}

impl View for TaskAction {
    type V = TaskActionView;

    open spec fn view(&self) -> TaskActionView {
        match self {
            TaskAction::Nothing => TaskActionView::Nothing,
            TaskAction::Fetch { tags, mode } => TaskActionView::Fetch {
                tags: views(tags@),
                mode: *mode,
            },
            TaskAction::Render => TaskActionView::Render,
            TaskAction::Publish { label, minutes } => TaskActionView::Publish {
                label: label@,
                minutes: *minutes,
            },
            TaskAction::Notify { text, minutes } => TaskActionView::Notify {
                text: text@,
                minutes: *minutes,
            },
            TaskAction::Abort { text } => TaskActionView::Abort { text: text@ },
            TaskAction::Exit => TaskActionView::Exit,
        }
    }
}

/// The notice for a search without a result. It depends on the mode.
pub open spec fn no_match_notice(mode: NsfwMode) -> Seq<char> {
    match mode {
        NsfwMode::SFW => "No sfw post matches the tags. Use fewer tags, or switch this channel to nsfw."@,
        NsfwMode::NSFW => "No post matches the tags, not even in nsfw mode. Use fewer tags."@,
    }
}

/// The notice for a search that failed.
pub open spec fn fetch_failed_notice() -> Seq<char> {
    "The search failed this time. The next one follows after the usual wait."@
}

/// The notice for a post that could not be rendered.
pub open spec fn render_failed_notice(reason: Seq<char>) -> Seq<char> {
    "Error: "@ + reason + ". Stopping for this channel"@
}

/// The tags of a search: the channel's tags, then the two that ask for one
/// random page of twenty posts.
pub open spec fn search_tags(tags: Seq<Seq<char>>) -> Seq<Seq<char>> {
    tags.push("order:random"@).push("limit:20"@)
}

/// The mode that the settings give, `SFW` where there are none.
pub open spec fn mode_of(config: Option<ChannelSettings>) -> NsfwMode {
    match config {
        Some(settings) => settings.nsfw_mode,
        None => NsfwMode::SFW,
    }
}

/// The start of a cycle: a search, if the channel has settings and is
/// active; the end of the task otherwise.
pub open spec fn begin_cycle(config: Option<ChannelSettings>) -> (TaskState, TaskActionView) {
    match config {
        Some(settings) => if settings.active {
            (
                TaskState::Fetching,
                TaskActionView::Fetch { tags: search_tags(settings.tags), mode: settings.nsfw_mode },
            )
        } else {
            (TaskState::Cancelled, TaskActionView::Exit)
        },
        None => (TaskState::Cancelled, TaskActionView::Exit),
    }
}

/// The transition of the task: from a state, an event, the channel's
/// settings as they are now (`None` where it has none) and the minutes to
/// sleep if the step ends in a sleep, to the next state and the action.
///
/// A cancelled task does nothing. A stop request cancels the task in
/// every other state. Apart from that, each state reacts to the events it
/// waits for and ignores the others.
pub open spec fn transition(
    state: TaskState,
    event: TaskEventView,
    config: Option<ChannelSettings>,
    minutes: u64,
) -> (TaskState, TaskActionView) {
    if state == TaskState::Cancelled {
        (TaskState::Cancelled, TaskActionView::Nothing)
    } else if event is StopRequested {
        (TaskState::Cancelled, TaskActionView::Exit)
    } else {
        match (state, event) {
            (TaskState::Idle, TaskEventView::Started) => begin_cycle(config),
            (TaskState::Waiting, TaskEventView::WaitElapsed) => begin_cycle(config),
            (TaskState::Fetching, TaskEventView::PostFound) => (
                TaskState::Publishing,
                TaskActionView::Render,
            ),
            (TaskState::Fetching, TaskEventView::NoMatch) => (
                TaskState::Waiting,
                TaskActionView::Notify { text: no_match_notice(mode_of(config)), minutes },
            ),
            (TaskState::Fetching, TaskEventView::FetchFailed) => (
                TaskState::Waiting,
                TaskActionView::Notify { text: fetch_failed_notice(), minutes },
            ),
            (TaskState::Publishing, TaskEventView::Rendered) => (
                TaskState::Waiting,
                TaskActionView::Publish {
                    label: delete_label(0, DELETE_QUORUM as nat),
                    minutes,
                },
            ),
            (TaskState::Publishing, TaskEventView::RenderFailed(reason)) => (
                TaskState::Cancelled,
                TaskActionView::Abort { text: render_failed_notice(reason) },
            ),
            _ => (state, TaskActionView::Nothing),
        }
    }
}

/// True if the step from `state` on `event` ends in a sleep.
pub open spec fn ends_in_sleep(state: TaskState, event: TaskEventView) -> bool {
    ||| state == TaskState::Fetching && (event is NoMatch || event is FetchFailed)
    ||| state == TaskState::Publishing && event is Rendered
}

/// The minutes that an action tells the runner to sleep, zero where it
/// tells no sleep.
pub open spec fn minutes_of(action: TaskActionView) -> u64 {
    match action {
        TaskActionView::Publish { label, minutes } => minutes,
        TaskActionView::Notify { text, minutes } => minutes,
        _ => 0,
    }
}

/// The settings behind an optional reference, as plain values.
pub open spec fn settings_of(config: Option<&ChannelConfiguration>) -> Option<ChannelSettings> {
    match config {
        Some(c) => Some(c@),
        None => None,
    }
}

/// The timeout that the settings give.
pub open spec fn timeout_of(config: Option<ChannelSettings>) -> Option<u64> {
    match config {
        Some(settings) => Some(settings.timeout),
        None => None,
    }
}

/// The timeout mode that the settings give.
pub open spec fn timeout_mode_of(config: Option<ChannelSettings>) -> Option<TimeoutMode> {
    match config {
        Some(settings) => Some(settings.timeout_mode),
        None => None,
    }
}

fn begin(config: Option<&ChannelConfiguration>) -> (next: (TaskState, TaskAction))
    ensures
        (next.0, next.1@) == begin_cycle(settings_of(config)),
{
    match config {
        Some(settings) => {
            if settings.active {
                let mut tags = clone_texts(&settings.tags);
                tags.push(String::from_str("order:random"));
                tags.push(String::from_str("limit:20"));
                assert(views(tags@) =~= search_tags(views(settings.tags@)));
                (TaskState::Fetching, TaskAction::Fetch { tags, mode: settings.nsfw_mode })
            } else {
                (TaskState::Cancelled, TaskAction::Exit)
            }
        },
        None => (TaskState::Cancelled, TaskAction::Exit),
    }
}

/// The notice for a search without a result in `mode`.
pub fn no_match_text(mode: NsfwMode) -> (text: String)
    ensures
        text@ == no_match_notice(mode),
{
    match mode {
        NsfwMode::SFW => String::from_str(
            "No sfw post matches the tags. Use fewer tags, or switch this channel to nsfw.",
        ),
        NsfwMode::NSFW => String::from_str(
            "No post matches the tags, not even in nsfw mode. Use fewer tags.",
        ),
    }
}

/// One step of the task with the minutes of a sleep given by the caller.
pub fn decide(
    state: TaskState,
    event: TaskEvent,
    config: Option<&ChannelConfiguration>,
    minutes: u64,
) -> (next: (TaskState, TaskAction))
    ensures
        (next.0, next.1@) == transition(state, event@, settings_of(config), minutes),
{
    match state {
        TaskState::Cancelled => { return (TaskState::Cancelled, TaskAction::Nothing); },
        _ => {},
    }
    match event {
        TaskEvent::StopRequested => { return (TaskState::Cancelled, TaskAction::Exit); },
        _ => {},
    }
    match state {
        TaskState::Idle => match event {
            TaskEvent::Started => begin(config),
            _ => (state, TaskAction::Nothing),
        },
        TaskState::Waiting => match event {
            TaskEvent::WaitElapsed => begin(config),
            _ => (state, TaskAction::Nothing),
        },
        TaskState::Fetching => match event {
            TaskEvent::PostFound => (TaskState::Publishing, TaskAction::Render),
            TaskEvent::NoMatch => {
                let mode = match config {
                    Some(settings) => settings.nsfw_mode,
                    None => NsfwMode::SFW,
                };
                (TaskState::Waiting, TaskAction::Notify { text: no_match_text(mode), minutes })
            },
            TaskEvent::FetchFailed => {
                let text = String::from_str(
                    "The search failed this time. The next one follows after the usual wait.",
                );
                (TaskState::Waiting, TaskAction::Notify { text, minutes })
            },
            _ => (state, TaskAction::Nothing),
        },
        TaskState::Publishing => match event {
            TaskEvent::Rendered => {
                let label = delete_button_label(0, DELETE_QUORUM);
                (TaskState::Waiting, TaskAction::Publish { label, minutes })
            },
            TaskEvent::RenderFailed(reason) => {
                let mut text = String::from_str("Error: ");
                text.append(reason.as_str());
                text.append(". Stopping for this channel");
                (TaskState::Cancelled, TaskAction::Abort { text })
            },
            _ => (state, TaskAction::Nothing),
        },
        TaskState::Cancelled => (TaskState::Cancelled, TaskAction::Nothing),
    }
}

/// One step of the task. Where the step ends in a sleep, its length comes
/// from the channel's timeout and timeout mode, and in `Random` mode it is
/// drawn at random; so the contract gives the action up to the minutes, and
/// the range in which they lie.
pub fn step(state: TaskState, event: TaskEvent, config: Option<&ChannelConfiguration>) -> (next: (
    TaskState,
    TaskAction,
))
    ensures
        (next.0, next.1@) == transition(state, event@, settings_of(config), minutes_of(next.1@)),
        ends_in_sleep(state, event@) ==> delay_low(
            timeout_of(settings_of(config)),
            timeout_mode_of(settings_of(config)),
        ) <= minutes_of(next.1@) <= delay_high(
            timeout_of(settings_of(config)),
            timeout_mode_of(settings_of(config)),
        ),
{
    let sleeps = match state {
        TaskState::Fetching => match event {
            TaskEvent::NoMatch => true,
            TaskEvent::FetchFailed => true,
            _ => false,
        },
        TaskState::Publishing => match event {
            TaskEvent::Rendered => true,
            _ => false,
        },
        _ => false,
    };
    let minutes = if sleeps {
        match config {
            Some(settings) => sleep_minutes(Some(settings.timeout), Some(settings.timeout_mode)),
            None => sleep_minutes(None, None),
        }
    } else {
        0
    };
    decide(state, event, config, minutes)
}

/// One input of a run of the task: the event, and the settings and sleep
/// minutes that hold when it arrives.
pub struct TaskInput {
    pub event: TaskEventView,
    pub config: Option<ChannelSettings>,
    pub minutes: u64,
}

/// The state of a task that started in `state` and took all of `inputs`.
pub open spec fn state_after(state: TaskState, inputs: Seq<TaskInput>) -> TaskState
    decreases inputs.len(),
{
    if inputs.len() == 0 {
        state
    } else {
        let last = inputs.last();
        transition(
            state_after(state, inputs.drop_last()),
            last.event,
            last.config,
            last.minutes,
        ).0
    }
}

/// The action that a task started in `state` returns on input `i` of `inputs`.
pub open spec fn action_at(state: TaskState, inputs: Seq<TaskInput>, i: int) -> TaskActionView {
    transition(
        state_after(state, inputs.take(i)),
        inputs[i].event,
        inputs[i].config,
        inputs[i].minutes,
    ).1
}

/// Once the stop signal has arrived, the task is cancelled and stays so,
/// whatever follows, and no later step asks for a search: not the step
/// that takes the signal, and none after it.
pub proof fn no_fetch_after_stop(state: TaskState, inputs: Seq<TaskInput>, stop: int, later: int)
    requires
        0 <= stop <= later < inputs.len(),
        inputs[stop].event is StopRequested,
    ensures
        state_after(state, inputs.take(later + 1)) == TaskState::Cancelled,
        !(action_at(state, inputs, later) is Fetch),
    decreases later - stop,
{
    assert(inputs.take(later + 1).drop_last() =~= inputs.take(later));
    assert(inputs.take(later + 1).last() == inputs[later]);
    if later > stop {
        no_fetch_after_stop(state, inputs, stop, later - 1);
    }
}

/// A search without a result does not end the task: it goes on to the
/// wait, with a notice that names the mode. The notices of the two modes
/// differ.
pub proof fn no_match_notice_depends_on_mode(config: Option<ChannelSettings>, minutes: u64)
    ensures
        transition(TaskState::Fetching, TaskEventView::NoMatch, config, minutes) == (
            TaskState::Waiting,
            TaskActionView::Notify { text: no_match_notice(mode_of(config)), minutes },
        ),
        no_match_notice(NsfwMode::SFW) != no_match_notice(NsfwMode::NSFW),
{
    reveal_strlit("No sfw post matches the tags. Use fewer tags, or switch this channel to nsfw.");
    reveal_strlit("No post matches the tags, not even in nsfw mode. Use fewer tags.");
    assert(no_match_notice(NsfwMode::SFW).len() != no_match_notice(NsfwMode::NSFW).len());
}

/// A failed search does not end the task either: it goes on to the wait.
pub proof fn failed_fetch_goes_on(config: Option<ChannelSettings>, minutes: u64)
    ensures
        transition(TaskState::Fetching, TaskEventView::FetchFailed, config, minutes).0
            == TaskState::Waiting,
{
}

/// True if a task may go from `from` to `to` in one step: along the cycle
/// of launch, search, publication and wait; into the end from anywhere; or
/// nowhere, where the event is not the one that the state waits for.
pub open spec fn may_follow(from: TaskState, to: TaskState) -> bool {
    to == from || to == TaskState::Cancelled || match from {
        TaskState::Idle => to == TaskState::Fetching,
        TaskState::Fetching => to == TaskState::Publishing || to == TaskState::Waiting,
        TaskState::Publishing => to == TaskState::Waiting,
        TaskState::Waiting => to == TaskState::Fetching,
        TaskState::Cancelled => false,
    }
}

/// Every step follows the cycle. A step that stays in its state asks for
/// nothing, and a step into the end asks for no search, no publication
/// and no sleep.
pub proof fn steps_follow_the_cycle(
    state: TaskState,
    event: TaskEventView,
    config: Option<ChannelSettings>,
    minutes: u64,
)
    ensures
        may_follow(state, transition(state, event, config, minutes).0),
        transition(state, event, config, minutes).0 == state ==> transition(
            state,
            event,
            config,
            minutes,
        ).1 is Nothing,
        transition(state, event, config, minutes).0 == TaskState::Cancelled ==> {
            let action = transition(state, event, config, minutes).1;
            action is Exit || action is Abort || action is Nothing
        },
{
}

/// A post that cannot be rendered ends the task, with a notice that gives
/// the reason; nothing but a new launch brings the channel back.
pub proof fn failed_render_ends_task(
    reason: Seq<char>,
    config: Option<ChannelSettings>,
    minutes: u64,
)
    ensures
        transition(
            TaskState::Publishing,
            TaskEventView::RenderFailed(reason),
            config,
            minutes,
        ) == (TaskState::Cancelled, TaskActionView::Abort { text: render_failed_notice(reason) }),
{
}

/// A search is asked for only at the start of a cycle, that is on launch
/// or when a sleep has run to its end, and only for a channel that has
/// settings and is active; its tags and mode are those of the settings.
pub proof fn fetch_only_begins_cycle(
    state: TaskState,
    event: TaskEventView,
    config: Option<ChannelSettings>,
    minutes: u64,
)
    requires
        transition(state, event, config, minutes).1 is Fetch,
    ensures
        (state == TaskState::Idle && event is Started) || (state == TaskState::Waiting
            && event is WaitElapsed),
        config is Some && config->Some_0.active,
        transition(state, event, config, minutes) == (
            TaskState::Fetching,
            TaskActionView::Fetch {
                tags: search_tags(config->Some_0.tags),
                mode: config->Some_0.nsfw_mode,
            },
        ),
{
}

} // verus!
