//! Plain-data descriptions of the outside work a dependency needs: how to
//! check its presence and which steps install or remove it.

use vstd::prelude::*;

use crate::error::{lift, Error, ErrorModel};

verus! {

/// The host family the tool runs on.
#[derive(Debug, Clone, Copy, PartialEq, Eq, Structural)]
pub enum Platform {
    Posix,
    Windows,
}

/// How to find out whether a dependency is present.
#[derive(Debug, Clone, PartialEq, Eq)]
pub enum Probe {
    /// The named binary can be found on the search path.
    Binary(String),
    /// A file exists at the path.
    File(String),
    /// A GET of the URL answers with success.
    Http(String),
    /// Present without any check.
    Always,
}

pub ghost enum ProbeModel {
    Binary(Seq<char>),
    File(Seq<char>),
    Http(Seq<char>),
    Always,
}

impl View for Probe {
    type V = ProbeModel;

    open spec fn view(&self) -> ProbeModel {
        match self {
            Probe::Binary(n) => ProbeModel::Binary(n@),
            Probe::File(p) => ProbeModel::File(p@),
            Probe::Http(u) => ProbeModel::Http(u@),
            Probe::Always => ProbeModel::Always,
        }
    }
}

/// An external program to run, with its arguments.
#[derive(Debug, Clone, PartialEq, Eq)]
pub struct Command {
    pub program: String,
    pub args: Vec<String>,
    /// When set, a non-zero exit status fails the surrounding operation.
    pub required: bool,
    /// What the step does, reported when it fails.
    pub context: String,
}

pub ghost struct CommandModel {
    pub program: Seq<char>,
    pub args: Seq<Seq<char>>,
    pub required: bool,
    pub context: Seq<char>,
}

impl View for Command {
    type V = CommandModel;

    open spec fn view(&self) -> CommandModel {
        CommandModel {
            program: self.program@,
            args: self.args@.map_values(|a: String| a@),
            required: self.required,
            context: self.context@,
        }
    }
}

/// The model of a command with no arguments yet.
pub open spec fn command_model(program: Seq<char>, required: bool, context: Seq<char>) -> CommandModel {
    CommandModel { program, args: Seq::empty(), required, context }
}

/// The model of `c` with one more argument.
pub open spec fn with_arg(c: CommandModel, a: Seq<char>) -> CommandModel {
    CommandModel { args: c.args.push(a), ..c }
}

impl Command {
    /// A command with no arguments.
    pub fn new(program: &str, required: bool, context: &str) -> (r: Command)
        ensures
            r@ == command_model(program@, required, context@),
    {
        let r = Command {
            program: String::from_str(program),
            args: Vec::new(),
            required,
            context: String::from_str(context),
        };
        assert(r@.args =~= Seq::<Seq<char>>::empty());
        r
    }

    /// Appends one argument.
    pub fn arg(&mut self, a: &str)
        ensures
            final(self)@ == with_arg(old(self)@, a@),
    {
        self.args.push(String::from_str(a));
        assert(final(self)@.args =~= old(self)@.args.push(a@));
    }

    /// What running this command amounts to, given whether it could be
    /// spawned and whether it exited with success.
    pub fn outcome(&self, exited: Result<bool, Error>) -> (r: Result<(), Error>)
        ensures
            lift(r) == command_outcome(self@, lift(exited)),
    {
        if !self.required {
            Ok(())
        } else if matches!(exited, Ok(false)) {
            Err(Error::CommandFailed(self.context.clone()))
        } else {
            exited.map_status()
        }
    }
}

/// Maps how a process ended to success or failure.
pub trait MapStatus {
    spec fn spec_map_status(self) -> Result<(), ErrorModel>;

    fn map_status(self) -> (r: Result<(), Error>)
        ensures
            lift(r) == self.spec_map_status(),
    ;
}

/// A process that could be spawned and exited with success.
impl MapStatus for Result<bool, Error> {
    /// A non-zero exit status is a failed command; a spawn error is kept.
    open spec fn spec_map_status(self) -> Result<(), ErrorModel> {
        match self {
            Ok(true) => Ok(()),
            Ok(false) => Err(ErrorModel::CommandFailed(EXIT_FAILURE@)),
            Err(e) => Err(e@),
        }
    }

    fn map_status(self) -> (r: Result<(), Error>) {
        match self {
            Ok(true) => Ok(()),
            Ok(false) => Err(Error::CommandFailed(String::from_str(EXIT_FAILURE))),
            Err(e) => Err(e),
        }
    }
}

/// Reported for a non-zero exit status when no context is known.
pub const EXIT_FAILURE: &'static str = "The exit code of the operation was not successful.";

/// A command that is not required never fails; a required one fails with
/// its spawn error, or with its context when it exits unsuccessfully.
pub open spec fn command_outcome(c: CommandModel, exited: Result<bool, ErrorModel>) -> Result<(), ErrorModel> {
    if !c.required {
        Ok(())
    } else {
        match exited {
            Ok(true) => Ok(()),
            Ok(false) => Err(ErrorModel::CommandFailed(c.context)),
            Err(e) => Err(e),
        }
    }
}

} // verus!

verus! {

/// One step of an install or a removal.
#[derive(Debug, Clone, PartialEq, Eq)]
pub enum Step {
    /// Run a program.
    Run(Command),
    /// Write the contents (second) to the file at the path (first).
    WriteFile(String, String),
    /// Wait, with the readiness poller, until the probe reports presence.
    AwaitReady(Probe),
}

pub ghost enum StepModel {
    Run(CommandModel),
    WriteFile(Seq<char>, Seq<char>),
    AwaitReady(ProbeModel),
}

impl View for Step {
    type V = StepModel;

    open spec fn view(&self) -> StepModel {
        match self {
            Step::Run(c) => StepModel::Run(c@),
            Step::WriteFile(p, t) => StepModel::WriteFile(p@, t@),
            Step::AwaitReady(p) => StepModel::AwaitReady(p@),
        }
    }
}

/// The models of a sequence of steps.
pub open spec fn steps_model(v: Seq<Step>) -> Seq<StepModel> {
    v.map_values(|s: Step| s@)
}

/// A plan's model: its steps', or its error's.
pub open spec fn plan_model(r: Result<Vec<Step>, Error>) -> Result<Seq<StepModel>, ErrorModel> {
    match r {
        Ok(v) => Ok(steps_model(v@)),
        Err(e) => Err(e@),
    }
}

/// A probe's model, or its error's.
pub open spec fn probe_model(r: Result<Probe, Error>) -> Result<ProbeModel, ErrorModel> {
    match r {
        Ok(p) => Ok(p@),
        Err(e) => Err(e@),
    }
}

/// Appends a step, keeping the models in step.
pub fn push_step(v: &mut Vec<Step>, s: Step)
    ensures
        steps_model(final(v)@) == steps_model(old(v)@).push(s@),
{
    v.push(s);
    assert(steps_model(final(v)@) =~= steps_model(old(v)@).push(s@));
}

/// The program that looks a binary up on the search path of a host.
pub open spec fn lookup_program(host: Platform) -> Seq<char> {
    match host {
        Platform::Windows => "where"@,
        Platform::Posix => "which"@,
    }
}

impl Probe {
    /// The command that performs a binary or HTTP probe on a host; a file
    /// probe and a constant one need none.
    pub fn command(&self, host: Platform) -> (r: Option<Command>)
        ensures
            match self@ {
                ProbeModel::Binary(n) => r is Some && r->Some_0@ == with_arg(
                    command_model(lookup_program(host), true, "Unable to look up the binary."@),
                    n,
                ),
                ProbeModel::Http(u) => r is Some && r->Some_0@ == with_arg(
                    with_arg(command_model("curl"@, true, "Unable to curl the local server."@), "-fs"@),
                    u,
                ),
                _ => r is None,
            },
    {
        match self {
            Probe::Binary(n) => {
                let program = match host {
                    Platform::Windows => "where",
                    Platform::Posix => "which",
                };
                let mut c = Command::new(program, true, "Unable to look up the binary.");
                c.arg(n.as_str());
                Some(c)
            },
            Probe::Http(u) => {
                let mut c = Command::new("curl", true, "Unable to curl the local server.");
                c.arg("-fs");
                c.arg(u.as_str());
                Some(c)
            },
            _ => None,
        }
    }
}

} // verus!
