//! The polling loop, as decisions: what is to be done after each thing that
//! happened. Running the utility, printing and sleeping are left to the caller.

use vstd::prelude::*;
use vstd::string::*;
use crate::table::{
    decimal, format_row, header_line, row, separator_line, title_line, SEPARATOR_WIDTH,
};

verus! {

/// Seconds to sleep between two samples.
pub const POLL_INTERVAL_SECS: u64 = 2;

/// What happened last.
#[derive(Debug, PartialEq, Eq)]
pub enum Event {
    /// The monitor was started.
    Started,
    /// A sample was taken. The two frequencies come as the texts in which
    /// they are to be shown.
    Sampled { timestamp: u64, p_cluster: String, e_cluster: String },
    /// No sample could be taken; `message` says why.
    Failed { message: String },
    /// The delay between two samples has passed.
    Woke,
}

/// What to do next.
#[derive(Debug, PartialEq, Eq)]
pub enum Action {
    /// Write the line to standard output.
    Print(String),
    /// Write the line to standard error.
    Report(String),
    /// Run the utility and take a sample; answered by `Sampled` or `Failed`.
    Sample,
    /// Sleep; answered by `Woke`.
    Sleep { seconds: u64 },
}

/// An action, with its text as characters.
pub enum ActionView {
    Print(Seq<char>),
    Report(Seq<char>),
    Sample,
    Sleep { seconds: u64 },
}

impl View for Action {
    type V = ActionView;

    open spec fn view(&self) -> ActionView {
        match self {
            Action::Print(line) => ActionView::Print(line@),
            Action::Report(line) => ActionView::Report(line@),
            Action::Sample => ActionView::Sample,
            Action::Sleep { seconds } => ActionView::Sleep { seconds: *seconds },
        }
    }
}

/// The views of a sequence of actions, in order.
pub open spec fn action_views(actions: Seq<Action>) -> Seq<ActionView> {
    actions.map_values(|a: Action| a@)
}

/// The line that reports a failed cycle.
pub open spec fn diagnostic(message: Seq<char>) -> Seq<char> {
    "Error: "@ + message
}

/// The actions that answer an event, in the order in which they are to be
/// carried out. The loop has one state only, so the event alone decides:
/// - at the start, the title, the header and the separator are printed and
///   the first sample is taken;
/// - a sample is printed as a row, a failure is reported in one line, and
///   either way the loop sleeps for the interval;
/// - after the sleep the next sample is taken.
pub open spec fn reaction(event: Event) -> Seq<ActionView> {
    match event {
        Event::Started => seq![
            ActionView::Print("CPU Clock Monitor - Press Ctrl+C to stop"@),
            ActionView::Print(row("Time"@, "P-Core(MHz)"@, "E-Core(MHz)"@)),
            ActionView::Print(Seq::new(SEPARATOR_WIDTH as nat, |i: int| '-')),
            ActionView::Sample,
        ],
        Event::Sampled { timestamp, p_cluster, e_cluster } => seq![
            ActionView::Print(row(decimal(timestamp as nat), p_cluster@, e_cluster@)),
            ActionView::Sleep { seconds: POLL_INTERVAL_SECS },
        ],
        Event::Failed { message } => seq![
            ActionView::Report(diagnostic(message@)),
            ActionView::Sleep { seconds: POLL_INTERVAL_SECS },
        ],
        Event::Woke => seq![ActionView::Sample],
    }
}

/// An action that is answered by an event, so that the loop goes on.
pub open spec fn awaits_event(action: ActionView) -> bool {
    action is Sample || action is Sleep
}

/// The loop never stops by itself: whatever happened, a failure included,
/// there is something to do, and the last thing to do is answered by a
/// further event. After a sample or a failure that last thing is the sleep
/// of the fixed interval, and after the sleep it is the next sample.
pub proof fn loop_keeps_running(event: Event)
    ensures
        reaction(event).len() > 0,
        awaits_event(reaction(event).last()),
        event is Sampled || event is Failed ==> reaction(event).last() == (ActionView::Sleep {
            seconds: POLL_INTERVAL_SECS,
        }),
        event is Woke ==> reaction(event) == seq![ActionView::Sample],
{
}

/// The line that reports a failed cycle: `Error: ` and the message.
pub fn error_line(message: &str) -> (line: String)
    ensures
        line@ == diagnostic(message@),
{
    let mut line = String::from_str("Error: ");
    line.append(message);
    line
}

/// Decides what to do after `event`.
pub fn react(event: &Event) -> (actions: Vec<Action>)
    ensures
        action_views(actions@) == reaction(*event),
{
    let mut actions: Vec<Action> = Vec::new();
    match event {
        Event::Started => {
            actions.push(Action::Print(title_line()));
            actions.push(Action::Print(header_line()));
            actions.push(Action::Print(separator_line()));
            actions.push(Action::Sample);
        },
        Event::Sampled { timestamp, p_cluster, e_cluster } => {
            actions.push(
                Action::Print(format_row(*timestamp, p_cluster.as_str(), e_cluster.as_str())),
            );
            actions.push(Action::Sleep { seconds: POLL_INTERVAL_SECS });
        },
        Event::Failed { message } => {
            actions.push(Action::Report(error_line(message.as_str())));
            actions.push(Action::Sleep { seconds: POLL_INTERVAL_SECS });
        },
        Event::Woke => {
            actions.push(Action::Sample);
        },
    }
    assert(action_views(actions@) =~= reaction(*event));
    actions
}

/// The views of a sequence of texts, in order.
pub open spec fn text_views(texts: Seq<&'static str>) -> Seq<Seq<char>> {
    texts.map_values(|s: &'static str| s@)
}

/// The command that takes one sample: the utility, run with elevated
/// privileges, for one sample of the CPU power metrics over a window of one
/// second. The program comes first, its arguments after it.
pub fn sampler_command() -> (command: Vec<&'static str>)
    ensures
        text_views(command@) == seq![
            "sudo"@,
            "powermetrics"@,
            "-i"@,
            "1000"@,
            "-n"@,
            "1"@,
            "--samplers"@,
            "cpu_power"@,
            "-f"@,
            "json"@,
        ],
{
    let mut command: Vec<&'static str> = Vec::new();
    command.push("sudo");
    command.push("powermetrics");
    command.push("-i");
    command.push("1000");
    command.push("-n");
    command.push("1");
    command.push("--samplers");
    command.push("cpu_power");
    command.push("-f");
    command.push("json");
    assert(text_views(command@) =~= seq![
        "sudo"@,
        "powermetrics"@,
        "-i"@,
        "1000"@,
        "-n"@,
        "1"@,
        "--samplers"@,
        "cpu_power"@,
        "-f"@,
        "json"@,
    ]);
    command
}

} // verus!
