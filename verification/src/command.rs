//! The command that was run, and the report on how it ran.

use std::fmt::Write;
use vstd::prelude::*;

use crate::duration::{human_text, Elapsed, HumanDuration};
use crate::text::joined;

verus! {

/// The layout of the start and end times in a report: date, time on the
/// twelve-hour clock with `am` or `pm`, and the time zone's abbreviation.
pub const TIMESTAMP_FORMAT: &'static str = "%Y-%m-%d: %I:%M:%S%P - %Z";

/// A program and the arguments it is given.
pub struct CommandLine {
    pub program: String,
    pub args: Vec<String>,
}

impl CommandLine {
    /// The program's name followed by its arguments.
    pub open spec fn words(&self) -> Seq<Seq<char>> {
        seq![self.program@] + self.args.deep_view()
    }

    /// Reads the command from the arguments the wrapper was started with:
    /// its own name first, then the program, then the program's arguments.
    /// Without a program there is no command.
    pub fn from_args(args: &Vec<String>) -> (command: Option<CommandLine>)
        ensures
            command is Some <==> args@.len() >= 2,
            command matches Some(c) ==> c.words() == args.deep_view().skip(1),
    {
        let n: usize = args.len();
        if n < 2 {
            return None;
        }
        let program = args[1].clone();
        let mut rest: Vec<String> = Vec::new();
        let mut i: usize = 2;
        while i < n
            invariant
                2 <= i <= n,
                n == args@.len(),
                rest@.len() == i - 2,
                forall|k: int| 0 <= k < rest@.len() ==> (#[trigger] rest@[k])@ == args@[k + 2]@,
            decreases n - i,
        {
            rest.push(args[i].clone());
            i = i + 1;
        }
        let command = CommandLine { program, args: rest };
        Some(command)
    }
}

/// A command shown as it would be typed.
pub struct CommandDisplay<'a>(pub &'a CommandLine);

impl<'a> CommandDisplay<'a> {
    /// The program and its arguments, separated by single spaces.
    pub fn to_text(&self) -> (text: String)
        ensures
            text@ == joined(self.0.words()),
    {
        let command = self.0;
        let ghost all = command.words();
        let mut text = command.program.clone();
        let n: usize = command.args.len();
        let mut i: usize = 0;
        while i < n
            invariant
                i <= n,
                n == command.args@.len(),
                all == command.words(),
                all.len() == n + 1,
                text@ == joined(all.take(i + 1)),
            decreases n - i,
        {
            assert(all.take(i + 2).drop_last() =~= all.take(i + 1));
            proof {
                reveal_strlit(" ");
            }
            text.append(" ");
            text.append(command.args[i].as_str());
            i = i + 1;
        }
        assert(all.take(n + 1) =~= all);
        text
    }
}

/// The text of a report: the command, how long it ran, when it started
/// and when it finished, one item to a line.
pub open spec fn report_text(
    command: Seq<char>,
    elapsed: Seq<char>,
    started: Seq<char>,
    finished: Seq<char>,
) -> Seq<char> {
    "Command: "@ + command + "\n\tRan for:  "@ + elapsed + ".\n\tStarted:  "@ + started
        + ".\n\tFinished: "@ + finished + "."@
}

/// Lays out a report from its four items, each already in text.
pub fn layout(command: &str, elapsed: &str, started: &str, finished: &str) -> (text: String)
    ensures
        text@ == report_text(command@, elapsed@, started@, finished@),
{
    let mut text = String::from_str("Command: ");
    text.append(command);
    text.append("\n\tRan for:  ");
    text.append(elapsed);
    text.append(".\n\tStarted:  ");
    text.append(started);
    text.append(".\n\tFinished: ");
    text.append(finished);
    text.append(".");
    text
}

/// `jiff::Timestamp`, a moment in time. Reports carry it from the clock
/// to the formatter without looking inside.
#[verifier::external_type_specification]
#[verifier::external_body]
pub struct ExTimestamp(jiff::Timestamp);

/// Shows a moment in the time zone of the machine, laid out by `format`:
/// `jiff::Timestamp::to_zoned` with `jiff::tz::TimeZone::system`, then
/// `jiff::Zoned::strftime`. The text depends on the machine's time zone,
/// so nothing is claimed of it.
#[verifier::external_body]
fn local_time_text(moment: &jiff::Timestamp, format: &str) -> (text: String) {
    let zoned = moment.to_zoned(jiff::tz::TimeZone::system());
    let mut text = String::new();
    let _ = write!(text, "{}", zoned.strftime(format));
    text
}

/// Whether `text` is the report on a run of `command` that took `elapsed`
/// nanoseconds, with some text in the place of each of the two times. How
/// a moment reads depends on the time zone of the machine, so the two
/// times are left open.
pub open spec fn is_report_on(text: Seq<char>, command: Seq<Seq<char>>, elapsed: nat) -> bool {
    exists|started: Seq<char>, finished: Seq<char>|
        text == #[trigger] report_text(joined(command), human_text(elapsed), started, finished)
}

/// What is known of a command once it has ended.
pub struct CommandReport {
    pub command: CommandLine,
    pub elapsed: Elapsed,
    pub start: jiff::Timestamp,
    pub end: jiff::Timestamp,
}

impl CommandReport {
    /// Lays out the report: the command, the elapsed time, and the start
    /// and the end as they read in the machine's time zone.
    pub fn to_text(&self) -> (text: String)
        ensures
            is_report_on(text@, self.command.words(), self.elapsed@),
    {
        let command = CommandDisplay(&self.command).to_text();
        let elapsed = HumanDuration(self.elapsed).to_text();
        let started = local_time_text(&self.start, TIMESTAMP_FORMAT);
        let finished = local_time_text(&self.end, TIMESTAMP_FORMAT);
        layout(command.as_str(), elapsed.as_str(), started.as_str(), finished.as_str())
    }
}

} // verus!
