//! The fetch worker's control state: a three-state machine that decides when
//! a fetch pass runs and with which credential. The background loop that
//! carries the passes out performs one step of this machine per event, so
//! every scheduling decision is made here, under contract.
//!
//! States: `AwaitingCredential` (no credential has ever arrived), `Fetching`
//! (a pass is running), `Idle` (between passes). A credential command enters
//! `Fetching` from either parked state; a refresh re-enters it from `Idle`;
//! while a pass runs, commands only overwrite the stored credential or mark
//! one follow-up pass as owed, never start an overlapping pass.

use vstd::prelude::*;
use vstd::string::*;

verus! {

/// The three states of the fetch worker.
#[derive(Clone, Copy, Debug, PartialEq, Eq, Structural)]
pub enum WorkerState {
    AwaitingCredential,
    Fetching,
    Idle,
}

/// A command the foreground sends the worker: deliver a credential, or ask
/// for another pass with the credential last delivered.
#[derive(Debug)]
pub enum WorkerCommand {
    SetCredential(String),
    Refresh,
}

/// The ghost image of a command.
pub enum CommandImage {
    SetCredential(Seq<char>),
    Refresh,
}

impl View for WorkerCommand {
    type V = CommandImage;

    open spec fn view(&self) -> CommandImage {
        match self {
            WorkerCommand::SetCredential(k) => CommandImage::SetCredential(k@),
            WorkerCommand::Refresh => CommandImage::Refresh,
        }
    }
}

/// The ghost image of the worker core.
pub struct WorkerImage {
    pub state: WorkerState,
    pub credential: Option<Seq<char>>,
    pub pending_refresh: bool,
}

impl WorkerImage {
    /// The core's invariant: a worker that ever left `AwaitingCredential`
    /// holds a non-empty credential, a worker that never did holds none, and
    /// a pass can only be owed while one is running.
    pub open spec fn wf(self) -> bool {
        &&& (self.state is AwaitingCredential ==> self.credential is None && !self.pending_refresh)
        &&& (!(self.state is AwaitingCredential) ==> (self.credential matches Some(k) && k.len()
            > 0))
        &&& (self.pending_refresh ==> self.state is Fetching)
    }
}

/// Where the worker starts: fetching at once when a non-empty credential is
/// supplied, else parked waiting for one.
pub open spec fn start_image(initial: Option<Seq<char>>) -> WorkerImage {
    match initial {
        Some(k) => if k.len() > 0 {
            WorkerImage { state: WorkerState::Fetching, credential: Some(k), pending_refresh: false }
        } else {
            WorkerImage {
                state: WorkerState::AwaitingCredential,
                credential: None,
                pending_refresh: false,
            }
        },
        None => WorkerImage {
            state: WorkerState::AwaitingCredential,
            credential: None,
            pending_refresh: false,
        },
    }
}

/// One step of the machine on a command. An empty credential is ignored. A
/// credential entering a parked state starts a pass with it; a refresh from
/// `Idle` starts a pass with the stored credential; while a pass runs, a
/// command only stores the credential or owes one follow-up pass.
pub open spec fn step_command(w: WorkerImage, c: CommandImage) -> WorkerImage {
    match c {
        CommandImage::SetCredential(k) => if k.len() == 0 {
            w
        } else {
            match w.state {
                WorkerState::Fetching => WorkerImage {
                    credential: Some(k),
                    pending_refresh: true,
                    ..w
                },
                _ => WorkerImage {
                    state: WorkerState::Fetching,
                    credential: Some(k),
                    pending_refresh: false,
                },
            }
        },
        CommandImage::Refresh => match w.state {
            WorkerState::AwaitingCredential => w,
            WorkerState::Idle => WorkerImage { state: WorkerState::Fetching, ..w },
            WorkerState::Fetching => WorkerImage { pending_refresh: true, ..w },
        },
    }
}

/// One step of the machine when the running pass completes: the one owed
/// follow-up pass starts, or the worker goes idle.
pub open spec fn step_complete(w: WorkerImage) -> WorkerImage {
    if w.pending_refresh {
        WorkerImage { state: WorkerState::Fetching, pending_refresh: false, ..w }
    } else {
        WorkerImage { state: WorkerState::Idle, ..w }
    }
}

/// The worker's control state. The background loop holds one of these, feeds
/// every received command and every pass completion through it, and runs a
/// pass exactly while the state is `Fetching`, with the stored credential.
pub struct WorkerCore {
    pub state: WorkerState,
    pub credential: Option<String>,
    pub pending_refresh: bool,
}

impl View for WorkerCore {
    type V = WorkerImage;

    open spec fn view(&self) -> WorkerImage {
        WorkerImage {
            state: self.state,
            credential: match self.credential {
                Some(k) => Some(k@),
                None => None,
            },
            pending_refresh: self.pending_refresh,
        }
    }
}

impl WorkerCore {
    /// A worker as it starts: fetching at once when a non-empty credential is
    /// supplied, else parked waiting for one.
    pub fn new(initial: Option<String>) -> (r: Self)
        ensures
            r@ == start_image(match initial {
                Some(k) => Some(k@),
                None => None,
            }),
            r@.wf(),
    {
        match initial {
            Some(k) => {
                if k.as_str().is_empty() {
                    WorkerCore {
                        state: WorkerState::AwaitingCredential,
                        credential: None,
                        pending_refresh: false,
                    }
                } else {
                    WorkerCore {
                        state: WorkerState::Fetching,
                        credential: Some(k),
                        pending_refresh: false,
                    }
                }
            },
            None => WorkerCore {
                state: WorkerState::AwaitingCredential,
                credential: None,
                pending_refresh: false,
            },
        }
    }

    /// Feeds one command through the machine.
    pub fn on_command(&mut self, cmd: WorkerCommand)
        requires
            old(self)@.wf(),
        ensures
            final(self)@ == step_command(old(self)@, cmd@),
            final(self)@.wf(),
    {
        match cmd {
            WorkerCommand::SetCredential(k) => {
                if !k.as_str().is_empty() {
                    match self.state {
                        WorkerState::Fetching => {
                            self.credential = Some(k);
                            self.pending_refresh = true;
                        },
                        _ => {
                            self.state = WorkerState::Fetching;
                            self.credential = Some(k);
                            self.pending_refresh = false;
                        },
                    }
                }
            },
            WorkerCommand::Refresh => {
                match self.state {
                    WorkerState::AwaitingCredential => {},
                    WorkerState::Idle => {
                        self.state = WorkerState::Fetching;
                    },
                    WorkerState::Fetching => {
                        self.pending_refresh = true;
                    },
                }
            },
        }
    }

    /// Notes that the running pass has completed, starting the one owed
    /// follow-up pass or going idle.
    pub fn on_fetch_complete(&mut self)
        requires
            old(self)@.wf(),
            old(self)@.state is Fetching,
        ensures
            final(self)@ == step_complete(old(self)@),
            final(self)@.wf(),
    {
        if self.pending_refresh {
            self.pending_refresh = false;
        } else {
            self.state = WorkerState::Idle;
        }
    }

    /// The credential of the pass that should be running now: one exactly
    /// while the state is `Fetching`, and then the stored credential.
    pub fn current_fetch(&self) -> (r: Option<String>)
        requires
            self@.wf(),
        ensures
            self@.state is Fetching ==> (r matches Some(k) && Some(k@) == self@.credential),
            !(self@.state is Fetching) ==> r is None,
    {
        match self.state {
            WorkerState::Fetching => match &self.credential {
                Some(k) => Some(k.clone()),
                None => None,
            },
            _ => None,
        }
    }
}

/// A credential delivered while the worker is idle starts exactly one pass,
/// and that pass uses the delivered credential, not the previous one: the
/// machine enters `Fetching` holding the new credential, owes no second pass,
/// and completing the pass leaves it idle again.
pub proof fn lemma_credential_while_idle(w: WorkerImage, k: Seq<char>)
    requires
        w.wf(),
        w.state is Idle,
        k.len() > 0,
    ensures
        ({
            let w1 = step_command(w, CommandImage::SetCredential(k));
            &&& w1.state is Fetching
            &&& w1.credential == Some(k)
            &&& !w1.pending_refresh
            &&& step_complete(w1).state is Idle
        }),
{
}

/// A refresh that arrives while a pass is already running neither starts an
/// overlapping pass nor touches the stored credential: it only marks the one
/// follow-up pass as owed, to run when the current pass completes.
pub proof fn lemma_refresh_while_fetching(w: WorkerImage)
    requires
        w.wf(),
        w.state is Fetching,
    ensures
        ({
            let w1 = step_command(w, CommandImage::Refresh);
            &&& w1.state is Fetching
            &&& w1.credential == w.credential
            &&& w1.pending_refresh
        }),
{
}

/// Refreshes asked for twice in quick succession while a pass runs coalesce:
/// the second changes nothing, and once the running pass completes exactly
/// one additional pass follows before the worker is idle again.
pub proof fn lemma_double_refresh_coalesces(w: WorkerImage)
    requires
        w.wf(),
        w.state is Fetching,
    ensures
        ({
            let w1 = step_command(w, CommandImage::Refresh);
            &&& step_command(w1, CommandImage::Refresh) == w1
            &&& step_complete(w1).state is Fetching
            &&& !step_complete(w1).pending_refresh
            &&& step_complete(step_complete(w1)).state is Idle
        }),
{
}

} // verus!
