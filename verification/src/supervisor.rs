//! The life of a source's process: started, polled, and brought down.
//!
//! A [`Source`] keeps the state; the process handle belongs to the program
//! around this library, which performs what the source decides: it spawns
//! the [`Launch`] that `activate` returns, tells the outcome, polls the child
//! without blocking before it asks `is_active`, and kills the child when
//! `deactivate` says so, and when the source is dropped.
//!
//! One port is used for every source, so one source at a time can be active.

use vstd::prelude::*;
use crate::text::{decimal, decimal_digits, joined};

verus! {

/// The port on which the active source listens.
pub const SOURCE_PORT: u16 = 7878;

/// Why a source's process could not be started.
#[derive(Clone, Copy, Debug, PartialEq, Eq, Structural)]
pub enum ProcessError {
    /// The source's process is still running.
    AlreadyActive,
    /// The executable could not be started.
    SpawnFailed,
}

/// Where a source is in its life.
#[derive(Clone, Copy, Debug, PartialEq, Eq, Structural)]
pub enum SourceState {
    /// No process.
    Inactive,
    /// The process was started and has not answered yet.
    Starting,
    /// The process has answered a request.
    Active,
    /// The process was told to end and may still run.
    Terminating,
}

/// What a poll of the child process without blocking shows.
#[derive(Clone, Copy, Debug, PartialEq, Eq, Structural)]
pub enum ChildStatus {
    /// The child runs.
    Running,
    /// The child has exited.
    Exited,
    /// The poll itself failed.
    Unknown,
}

/// Whether the step from `before` to `after` is one that a source's life
/// takes, or none at all: from inactive to starting, from starting to active,
/// from either of those to terminating, and from every state to inactive.
pub open spec fn allowed_step(before: SourceState, after: SourceState) -> bool {
    ||| before == after
    ||| after == SourceState::Inactive
    ||| (before == SourceState::Inactive && after == SourceState::Starting)
    ||| (before == SourceState::Starting && after == SourceState::Active)
    ||| (before == SourceState::Starting && after == SourceState::Terminating)
    ||| (before == SourceState::Active && after == SourceState::Terminating)
}

/// The command that starts a source: the executable and its one argument,
/// the port in decimal.
#[derive(Clone, Debug, PartialEq, Eq)]
pub struct Launch {
    pub program: String,
    pub argument: String,
}

/// A backend that answers protocol commands for one catalog.
#[derive(Debug, PartialEq, Eq)]
pub struct Source {
    pub name: String,
    pub url: Option<String>,
    pub is_local: bool,
    pub state: SourceState,
}

impl Clone for Source {
    fn clone(&self) -> (r: Self)
        ensures
            r == *self,
    {
        let url = match &self.url {
            Some(u) => Some(u.clone()),
            None => None,
        };
        Source { name: self.name.clone(), url, is_local: self.is_local, state: self.state }
    }
}

/// The directory below `home` in which the executables of local sources
/// lie.
pub open spec fn sources_dir_of(home: Seq<char>) -> Seq<char> {
    home + "/.local/mager/sources/"@
}

/// The directory below `home` in which the executables of local sources
/// lie.
pub fn sources_dir(home: &str) -> (r: String)
    ensures
        r@ == sources_dir_of(home@),
{
    joined(home, "/.local/mager/sources/")
}

/// The path of the executable of the source `name`: in the sources
/// directory, or for a development build in the project's build directory.
pub open spec fn executable_of(home: Seq<char>, name: Seq<char>, development: bool) -> Seq<
    char,
> {
    if development {
        home + "/Projects/mager/target/debug/"@ + name
    } else {
        sources_dir_of(home) + name
    }
}

impl Source {
    /// A local source found under the name `name`, without a process.
    pub fn local(name: String) -> (r: Self)
        ensures
            r.name == name,
            r.url is None,
            r.is_local,
            r.state == SourceState::Inactive,
    {
        Source { name, url: None, is_local: true, state: SourceState::Inactive }
    }

    /// The path of this source's executable.
    pub fn executable(&self, home: &str, development: bool) -> (r: String)
        ensures
            r@ == executable_of(home@, self.name@, development),
    {
        if development {
            let mut path = joined(home, "/Projects/mager/target/debug/");
            path.append(self.name.as_str());
            path
        } else {
            let mut path = sources_dir(home);
            path.append(self.name.as_str());
            path
        }
    }

    /// Whether the source's process runs, given what a poll of the child has
    /// just shown (`None` where there is no child). A child that has exited
    /// makes the source inactive in this very observation; nothing of an
    /// earlier observation is remembered.
    pub fn is_active(&mut self, polled: Option<ChildStatus>) -> (active: bool)
        ensures
            active == (old(self).state != SourceState::Inactive && polled == Some(
                ChildStatus::Running,
            )),
            final(self).state == if polled == Some(ChildStatus::Exited) || polled is None {
                SourceState::Inactive
            } else {
                old(self).state
            },
            polled != Some(ChildStatus::Running) ==> !active,
            final(self).name == old(self).name,
            final(self).url == old(self).url,
            final(self).is_local == old(self).is_local,
            allowed_step(old(self).state, final(self).state),
    {
        match polled {
            Some(ChildStatus::Running) => match self.state {
                SourceState::Inactive => false,
                _ => true,
            },
            Some(ChildStatus::Unknown) => false,
            _ => {
                self.state = SourceState::Inactive;
                false
            },
        }
    }

    /// Asks to start the source on `port`, given what a poll of the child
    /// has just shown. Fails with `AlreadyActive`, and changes nothing, where
    /// the process runs. Otherwise the source is starting, and the result is
    /// the command to spawn. Whether the source is ready is not known before
    /// it has answered a request.
    pub fn activate(&mut self, port: u16, home: &str, development: bool, polled: Option<
        ChildStatus,
    >) -> (r: Result<Launch, ProcessError>)
        ensures
            final(self).name == old(self).name,
            final(self).url == old(self).url,
            final(self).is_local == old(self).is_local,
            old(self).state != SourceState::Inactive && polled == Some(ChildStatus::Running)
                ==> r == Err::<Launch, ProcessError>(ProcessError::AlreadyActive) && final(self).state == old(self).state,
            !(old(self).state != SourceState::Inactive && polled == Some(ChildStatus::Running))
                ==> r is Ok && final(self).state == SourceState::Starting
                && r->Ok_0.program@ == executable_of(home@, old(self).name@, development)
                && r->Ok_0.argument@ == decimal_digits(port as nat),
    {
        if self.is_active(polled) {
            return Err(ProcessError::AlreadyActive);
        }
        self.state = SourceState::Starting;
        Ok(Launch { program: self.executable(home, development), argument: decimal(port as u64) })
    }

    /// Records that the command of `activate` could not be spawned: the
    /// source is inactive again, never half started.
    pub fn spawn_failed(&mut self) -> (e: ProcessError)
        ensures
            e == ProcessError::SpawnFailed,
            final(self).state == SourceState::Inactive,
            final(self).name == old(self).name,
            final(self).url == old(self).url,
            final(self).is_local == old(self).is_local,
    {
        self.state = SourceState::Inactive;
        ProcessError::SpawnFailed
    }

    /// Records that the source has answered a request: a starting source is
    /// active from now on.
    pub fn answered(&mut self)
        ensures
            final(self).state == if old(self).state == SourceState::Starting {
                SourceState::Active
            } else {
                old(self).state
            },
            final(self).name == old(self).name,
            final(self).url == old(self).url,
            final(self).is_local == old(self).is_local,
            allowed_step(old(self).state, final(self).state),
    {
        match self.state {
            SourceState::Starting => {
                self.state = SourceState::Active;
            },
            _ => {},
        }
    }

    /// Asks to end the source's process. Returns whether there is a process
    /// to be told so; the telling is not waited for.
    pub fn deactivate(&mut self) -> (kill: bool)
        ensures
            kill == (old(self).state != SourceState::Inactive),
            final(self).state == if old(self).state == SourceState::Inactive {
                SourceState::Inactive
            } else {
                SourceState::Terminating
            },
            final(self).name == old(self).name,
            final(self).url == old(self).url,
            final(self).is_local == old(self).is_local,
            allowed_step(old(self).state, final(self).state),
    {
        match self.state {
            SourceState::Inactive => false,
            _ => {
                self.state = SourceState::Terminating;
                true
            },
        }
    }
}

} // verus!
