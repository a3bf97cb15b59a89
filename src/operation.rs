//! Running a sequence of `usbipd` commands, each retried once as an elevated
//! process when the tool reports that administrator rights are needed.
//!
//! An [`Operation`] decides; the caller runs. The caller asks for the
//! [`Operation::pending`] invocation, runs it, and hands the [`Outcome`] to
//! [`Operation::record`], until nothing is pending or an error comes back.
use vstd::prelude::*;

use crate::error::UsbipError;
use crate::text::{contains_text, has_substring, join, joined, strs};

verus! {

/// The text in the tool's error output that calls for an elevated retry.
pub open spec fn elevation_marker() -> Seq<char> {
    "administrator"@
}

/// One `usbipd` command of an operation.
pub struct Command {
    /// The arguments passed to `usbipd`.
    pub args: Vec<String>,
    /// Whether a failure asking for administrator rights is retried elevated.
    pub may_elevate: bool,
}

pub struct CommandView {
    pub args: Seq<Seq<char>>,
    pub may_elevate: bool,
}

impl View for Command {
    type V = CommandView;

    open spec fn view(&self) -> CommandView {
        CommandView { args: strs(self.args@), may_elevate: self.may_elevate }
    }
}

pub open spec fn command_views(v: Seq<Command>) -> Seq<CommandView> {
    v.map_values(|c: Command| c@)
}

/// A command the caller is to run now.
pub struct Invocation {
    /// The arguments passed to `usbipd`.
    pub args: Vec<String>,
    /// Run through the elevation mechanism, with its window hidden, rather
    /// than as a plain child process.
    pub elevated: bool,
}

impl Invocation {
    /// The arguments as one line separated by single spaces, the form the
    /// elevation mechanism takes them in.
    pub fn parameters(&self) -> (r: String)
        ensures
            r@ == joined(strs(self.args@), " "@),
    {
        join(&self.args, " ")
    }
}

/// What became of an invocation.
pub enum Outcome {
    /// The command exited successfully, or the elevated process was launched.
    Success,
    /// `usbipd` exited with failure; holds its standard error.
    Failed(String),
    /// The process could not be started or elevated; holds the system's message.
    LaunchFailed(String),
}

/// A sequence of commands in progress.
pub struct Operation {
    commands: Vec<Command>,
    index: usize,
    elevated: bool,
    failed: bool,
}

pub struct OperationView {
    pub commands: Seq<CommandView>,
    /// The command now due; all before it succeeded.
    pub index: int,
    /// The command now due is to be retried elevated.
    pub elevated: bool,
    /// A command failed; nothing more is run.
    pub failed: bool,
}

impl OperationView {
    /// An operation that has run nothing yet.
    pub open spec fn fresh(commands: Seq<CommandView>) -> OperationView {
        OperationView { commands, index: 0, elevated: false, failed: false }
    }

    pub open spec fn wf(self) -> bool {
        &&& 0 <= self.index <= self.commands.len()
        &&& self.elevated ==> self.index < self.commands.len() && self.commands[self.index].may_elevate
    }

    /// Every command succeeded.
    pub open spec fn complete(self) -> bool {
        !self.failed && self.index == self.commands.len()
    }

    /// The arguments to run next and whether to run them elevated.
    pub open spec fn pending(self) -> Option<(Seq<Seq<char>>, bool)> {
        if self.failed || self.index >= self.commands.len() {
            None
        } else {
            Some((self.commands[self.index].args, self.elevated))
        }
    }

    /// A failure with this text is retried elevated.
    pub open spec fn escalates(self, text: Seq<char>) -> bool {
        &&& !self.elevated
        &&& self.commands[self.index].may_elevate
        &&& has_substring(text, elevation_marker())
    }

    /// How many more invocations the operation can ask for, at most.
    pub open spec fn remaining(self) -> nat {
        if self.failed {
            0
        } else if self.elevated {
            (2 * (self.commands.len() - self.index) - 1) as nat
        } else {
            (2 * (self.commands.len() - self.index)) as nat
        }
    }
}

impl View for Operation {
    type V = OperationView;

    closed spec fn view(&self) -> OperationView {
        OperationView {
            commands: command_views(self.commands@),
            index: self.index as int,
            elevated: self.elevated,
            failed: self.failed,
        }
    }
}

fn copy_args(args: &Vec<String>) -> (r: Vec<String>)
    ensures
        strs(r@) == strs(args@),
{
    let mut out: Vec<String> = Vec::new();
    let mut i: usize = 0;
    while i < args.len()
        invariant
            i <= args@.len(),
            out@.len() == i,
            forall|k: int| 0 <= k < i ==> #[trigger] out@[k]@ == args@[k]@,
        decreases args@.len() - i,
    {
        out.push(args[i].clone());
        i = i + 1;
    }
    proof {
        assert(strs(out@) =~= strs(args@));
    }
    out
}

impl Operation {
    /// An operation that runs `commands` in order.
    pub fn new(commands: Vec<Command>) -> (r: Operation)
        ensures
            r@ == OperationView::fresh(command_views(commands@)),
            r@.wf(),
    {
        Operation { commands, index: 0, elevated: false, failed: false }
    }

    /// The invocation to run next, or `None` when every command succeeded or
    /// one failed.
    pub fn pending(&self) -> (r: Option<Invocation>)
        requires
            self@.wf(),
        ensures
            r is None <==> self@.pending() is None,
            r matches Some(inv) ==> self@.pending() == Some((strs(inv.args@), inv.elevated)),
    {
        if self.failed || self.index >= self.commands.len() {
            None
        } else {
            let args = copy_args(&self.commands[self.index].args);
            Some(Invocation { args, elevated: self.elevated })
        }
    }

    /// Takes in the outcome of the pending invocation. A success moves on to
    /// the next command; a failure that asks for administrator rights on a
    /// command that may elevate, not yet elevated, schedules the elevated
    /// retry; any other failure ends the operation and is returned.
    pub fn record(&mut self, outcome: Outcome) -> (r: Option<UsbipError>)
        requires
            old(self)@.wf(),
            old(self)@.pending() is Some,
        ensures
            final(self)@.wf(),
            final(self)@.commands == old(self)@.commands,
            final(self)@.remaining() < old(self)@.remaining(),
            match outcome {
                Outcome::Success => {
                    &&& r is None
                    &&& final(self)@ == OperationView {
                        index: old(self)@.index + 1,
                        elevated: false,
                        ..old(self)@
                    }
                },
                Outcome::Failed(text) => if old(self)@.escalates(text@) {
                    &&& r is None
                    &&& final(self)@ == OperationView { elevated: true, ..old(self)@ }
                } else {
                    &&& r == Some(UsbipError::Tool(text))
                    &&& final(self)@ == OperationView { failed: true, ..old(self)@ }
                },
                Outcome::LaunchFailed(text) => if old(self)@.escalates(text@) {
                    &&& r is None
                    &&& final(self)@ == OperationView { elevated: true, ..old(self)@ }
                } else {
                    &&& r == Some(UsbipError::Launch(text))
                    &&& final(self)@ == OperationView { failed: true, ..old(self)@ }
                },
            },
    {
        proof {
            assert(command_views(self.commands@).len() == self.commands@.len());
        }
        let count = self.commands.len();
        proof {
            assert(self.index < count);
        }
        match outcome {
            Outcome::Success => {
                self.index = self.index + 1;
                self.elevated = false;
                None
            },
            Outcome::Failed(text) => {
                if self.escalates(&text) {
                    self.elevated = true;
                    None
                } else {
                    self.failed = true;
                    Some(UsbipError::Tool(text))
                }
            },
            Outcome::LaunchFailed(text) => {
                if self.escalates(&text) {
                    self.elevated = true;
                    None
                } else {
                    self.failed = true;
                    Some(UsbipError::Launch(text))
                }
            },
        }
    }

    fn escalates(&self, text: &String) -> (r: bool)
        requires
            self@.wf(),
            self@.pending() is Some,
        ensures
            r == self@.escalates(text@),
    {
        let marker = "administrator";
        !self.elevated && self.commands[self.index].may_elevate && contains_text(
            text.as_str(),
            marker,
        )
    }

    /// Every command succeeded.
    pub fn is_complete(&self) -> (r: bool)
        ensures
            r == self@.complete(),
    {
        !self.failed && self.index == self.commands.len()
    }
}

} // verus!
