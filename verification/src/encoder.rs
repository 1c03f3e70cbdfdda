//! The call of the external encoder: the command line that is handed to it,
//! and what is made of the way it ended.

use vstd::prelude::*;
use crate::paths::{join, joined, parent, parent_of};

verus! {

/// A command line: the program to start and the arguments it is given.
#[derive(Debug, Clone, PartialEq, Eq)]
pub struct EncoderCommand {
    pub program: String,
    pub arguments: Vec<String>,
}

/// The mathematical value of an [`EncoderCommand`].
pub struct CommandView {
    pub program: Seq<char>,
    pub arguments: Seq<Seq<char>>,
}

impl View for EncoderCommand {
    type V = CommandView;

    open spec fn view(&self) -> CommandView {
        CommandView { program: self.program@, arguments: self.arguments.deep_view() }
    }
}

impl DeepView for EncoderCommand {
    type V = CommandView;

    open spec fn deep_view(&self) -> CommandView {
        self@
    }
}

/// The name under which the encoder is started.
pub open spec fn encoder_program() -> Seq<char> {
    "ffmpeg"@
}

/// The name of the file that a rip writes, in the directory of its source.
pub open spec fn output_name() -> Seq<char> {
    "output.mp3"@
}

/// The arguments of a rip: read `source`, drop the video stream, encode the
/// audio as mp3 at quality 4, write to `destination`.
pub open spec fn encoder_arguments(source: Seq<char>, destination: Seq<char>) -> Seq<Seq<char>> {
    seq!["-i"@, source, "-vn"@, "-acodec"@, "libmp3lame"@, "-q:a"@, "4"@, destination]
}

/// The command line that rips `source` into `destination`.
pub open spec fn rip_command(source: Seq<char>, destination: Seq<char>) -> CommandView {
    CommandView {
        program: encoder_program(),
        arguments: encoder_arguments(source, destination),
    }
}

/// Where the audio of `source` goes: the file named [`output_name`] beside
/// it. A path without a parent has no such place.
///
/// The name is fixed, so every file of a directory is ripped into the same
/// place, and a rip overwrites what an earlier one of a sibling wrote: see
/// [`siblings_share_a_destination`].
pub open spec fn destination_of(source: Seq<char>) -> Option<Seq<char>> {
    match parent_of(source) {
        Some(directory) => Some(joined(directory, output_name())),
        None => None,
    }
}

/// The command line that a rip of `source` runs, if it runs one.
pub open spec fn planned_command(source: Seq<char>) -> Option<CommandView> {
    match destination_of(source) {
        Some(destination) => Some(rip_command(source, destination)),
        None => None,
    }
}

/// Builds the command line that rips `source` into `destination`.
pub fn command_for(source: &str, destination: &str) -> (command: EncoderCommand)
    ensures
        command@ == rip_command(source@, destination@),
{
    let mut arguments: Vec<String> = Vec::new();
    arguments.push("-i".to_owned());
    arguments.push(source.to_owned());
    arguments.push("-vn".to_owned());
    arguments.push("-acodec".to_owned());
    arguments.push("libmp3lame".to_owned());
    arguments.push("-q:a".to_owned());
    arguments.push("4".to_owned());
    arguments.push(destination.to_owned());
    let command = EncoderCommand { program: "ffmpeg".to_owned(), arguments };
    assert(command.arguments.deep_view() =~= encoder_arguments(source@, destination@));
    command
}

/// Plans the rip of `source`: the command line to run, or nothing where
/// `source` has no parent directory to write into.
pub fn plan_rip(source: &str) -> (command: Option<EncoderCommand>)
    ensures
        command.deep_view() == planned_command(source@),
{
    match parent(source) {
        Some(directory) => {
            let destination = join(directory.as_str(), "output.mp3");
            Some(command_for(source, destination.as_str()))
        },
        None => None,
    }
}

/// Two files with the same parent are ripped into the same destination.
pub proof fn siblings_share_a_destination(first: Seq<char>, second: Seq<char>)
    requires
        parent_of(first) == parent_of(second),
    ensures
        destination_of(first) == destination_of(second),
{
}

/// A rip is planned exactly for a source that has a parent. It starts the
/// encoder with eight arguments, the source second and the destination last.
pub proof fn planned_command_follows_the_template(source: Seq<char>)
    ensures
        planned_command(source) is Some <==> parent_of(source) is Some,
        planned_command(source) matches Some(command) ==> {
            &&& command.program == encoder_program()
            &&& command.arguments.len() == 8
            &&& command.arguments[1] == source
            &&& Some(command.arguments[7]) == destination_of(source)
        },
{
}

/// How a run of the encoder ended.
#[derive(Debug, Clone, Copy, PartialEq, Eq)]
pub enum EncoderExit {
    /// The encoder could not be started.
    NotStarted,
    /// The encoder ran and ended; the exit code is missing where the
    /// operating system ended it without one.
    Exited(Option<i32>),
}

/// What a rip came to.
#[derive(Debug, Clone, Copy, PartialEq, Eq, Structural)]
pub enum RipOutcome {
    Success,
    Failure,
}

impl RipOutcome {
    /// The text that tells the user of this outcome.
    pub open spec fn notice(self) -> Seq<char> {
        match self {
            RipOutcome::Success => "audio has been ripped"@,
            RipOutcome::Failure => "failed to RIP audio"@,
        }
    }

    /// The text that tells the user of this outcome.
    pub fn message(&self) -> (text: String)
        ensures
            text@ == self.notice(),
    {
        match self {
            RipOutcome::Success => "audio has been ripped".to_owned(),
            RipOutcome::Failure => "failed to RIP audio".to_owned(),
        }
    }
}

/// A rip succeeded exactly when the encoder ran and ended with exit code 0.
pub open spec fn outcome_of(exit: EncoderExit) -> RipOutcome {
    if exit == EncoderExit::Exited(Some(0i32)) {
        RipOutcome::Success
    } else {
        RipOutcome::Failure
    }
}

/// Judges a run of the encoder by the way it ended.
pub fn rip_outcome(exit: EncoderExit) -> (outcome: RipOutcome)
    ensures
        outcome == outcome_of(exit),
{
    match exit {
        EncoderExit::Exited(Some(code)) => {
            if code == 0 {
                RipOutcome::Success
            } else {
                RipOutcome::Failure
            }
        },
        EncoderExit::Exited(None) => RipOutcome::Failure,
        EncoderExit::NotStarted => RipOutcome::Failure,
    }
}

} // verus!
