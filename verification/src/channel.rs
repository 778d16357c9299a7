//! The command channel: an ordered, one-directional delivery path from any
//! number of callers to exactly one worker, carrying typed commands.  Each
//! command that expects a result embeds a single-use reply destination; the
//! reply flows back independently of other in-flight commands.
//!
//! The channel itself is a plain value.  To share it across threads, an
//! embedding program wraps one `CommandChannel` in its own mutual-exclusion
//! lock and notification primitive; every operation here is one short,
//! non-blocking critical section.  A blocking `await` is a loop that retries
//! [`CommandChannel::await_reply`] until the reply is ready or the caller
//! gives up waiting; a caller that gives up sees an error, never a hang.

use vstd::pervasive::VecAdditionalExecFns;
use vstd::prelude::*;

verus! {

/// Resource placement for a load: how many layers to place on the GPU.
#[derive(Clone, Debug, PartialEq)]
pub enum GPULayers {
    /// Place a specific number of layers on the GPU.
    Specific(u32),
    /// Place as many layers as possible on the GPU.
    Max,
}

/// What the worker should do when the context is full.
#[derive(Clone, Debug, PartialEq)]
pub enum ContextOverflowPolicy {
    StopAtLimit,
    TruncateMiddle,
    TruncateLifo,
}

/// The options carried by a load command.
#[derive(Clone, Debug, PartialEq)]
pub struct LoadModelOptions {
    pub prompt_template: Option<String>,
    pub gpu_layers: GPULayers,
    pub use_mlock: bool,
    pub context_overflow_policy: ContextOverflowPolicy,
    pub n_batch: Option<u32>,
    /// The maximum context window size, in tokens.
    pub n_ctx: u32,
}

/// The success payload of a completed load.
#[derive(Clone, Debug, PartialEq)]
pub struct LoadedModelInfo {
    pub file_id: String,
    pub model_id: String,
}

/// What the worker reports back for a load command.
#[derive(Clone, Debug, PartialEq)]
pub enum LoadModelResponse {
    /// The load finished; the payload confirms which model is in place.
    Completed(LoadedModelInfo),
    /// An intermediate progress report: file identifier and percent done.
    Progress(String, u8),
}

/// The value placed into a load command's reply destination: a success
/// response from the worker, or the worker's description of a failure.
pub type LoadModelResult = Result<LoadModelResponse, String>;

/// A fault of the transport itself, as opposed to a failure the worker reports.
#[derive(Clone, Copy, Debug, PartialEq)]
pub enum ChannelError {
    /// The reply destination was already fulfilled (or never existed): the
    /// worker-side contract of exactly one fulfilment per command was broken.
    AlreadyFulfilled,
    /// The reply was awaited but never fulfilled: the sending half was
    /// abandoned, or the caller stopped waiting.
    NeverFulfilled,
}

/// Names the one-shot reply destination embedded in one command.
///
/// Tickets are issued by [`CommandChannel::create_reply`]; the ticket travels
/// to the worker inside the command, the requesting caller keeps a copy to
/// await the reply on.
#[derive(Clone, Copy, Debug, PartialEq)]
pub struct ReplyTicket {
    id: usize,
}

impl View for ReplyTicket {
    type V = int;

    closed spec fn view(&self) -> int {
        self.id as int
    }
}

/// The state of one reply destination: fulfilled at most once, taken at most
/// once by whoever awaits it.
#[derive(Debug, PartialEq)]
pub enum ReplyState {
    /// Created, not yet fulfilled by the worker.
    Pending,
    /// Fulfilled by the worker; the outcome waits for the caller.
    Fulfilled(LoadModelResult),
    /// The outcome was handed to the awaiting caller.
    Taken,
}

/// A command sent from a caller to the worker.
#[derive(Clone, Debug, PartialEq)]
pub enum Command {
    /// Load the model identified by the file identifier, with the given
    /// options; the ticket names the reply destination to fulfil exactly once.
    LoadModel(String, LoadModelOptions, ReplyTicket),
}

/// The mathematical content of a [`CommandChannel`]: the queue of commands the
/// worker has not yet taken, and the state of every reply destination ever
/// issued, indexed by ticket.
pub struct ChannelModel {
    pub queue: Seq<Command>,
    pub replies: Seq<ReplyState>,
}

/// The transport between callers and the worker.
pub struct CommandChannel {
    queue: Vec<Command>,
    replies: Vec<ReplyState>,
}

impl View for CommandChannel {
    type V = ChannelModel;

    closed spec fn view(&self) -> ChannelModel {
        ChannelModel { queue: self.queue@, replies: self.replies@ }
    }
}

impl CommandChannel {
    /// A fresh channel: nothing queued, no reply destinations issued.
    pub fn new() -> (r: CommandChannel)
        ensures
            r@.queue.len() == 0,
            r@.replies.len() == 0,
    {
        CommandChannel { queue: Vec::new(), replies: Vec::new() }
    }

    /// Issues a fresh one-shot reply destination and returns its ticket.
    pub fn create_reply(&mut self) -> (t: ReplyTicket)
        ensures
            final(self)@.queue == old(self)@.queue,
            final(self)@.replies == old(self)@.replies.push(ReplyState::Pending),
            t@ == old(self)@.replies.len(),
    {
        let t = ReplyTicket { id: self.replies.len() };
        self.replies.push(ReplyState::Pending);
        t
    }

    /// Enqueues a command for the worker.  Never blocks the caller: delivery
    /// is fire-and-forget at the transport level.  Commands sent by one caller
    /// are delivered in send order.
    pub fn send(&mut self, cmd: Command)
        ensures
            final(self)@.queue == old(self)@.queue.push(cmd),
            final(self)@.replies == old(self)@.replies,
    {
        self.queue.push(cmd);
    }

    /// The worker takes the oldest queued command, if any.  The worker is the
    /// single consumer: commands leave the queue strictly one at a time, in
    /// arrival order.
    pub fn take_next(&mut self) -> (r: Option<Command>)
        ensures
            old(self)@.queue.len() == 0 ==> {
                &&& r is None
                &&& final(self)@ == old(self)@
            },
            old(self)@.queue.len() > 0 ==> {
                &&& r == Some(old(self)@.queue[0])
                &&& final(self)@.queue == old(self)@.queue.drop_first()
                &&& final(self)@.replies == old(self)@.replies
            },
    {
        if self.queue.len() == 0 {
            None
        } else {
            Some(self.queue.remove(0))
        }
    }

    /// How many commands the worker has not yet taken.
    pub fn queue_len(&self) -> (r: usize)
        ensures
            r == self@.queue.len(),
    {
        self.queue.len()
    }

    /// The worker fulfils a reply destination with the load outcome.
    ///
    /// Succeeds exactly when the ticket names a reply that is still pending;
    /// a second fulfilment of the same reply (or a ticket that names no
    /// pending reply) is a broken-contract condition and changes nothing.
    pub fn fulfill(&mut self, t: ReplyTicket, outcome: LoadModelResult) -> (r: Result<(), ChannelError>)
        ensures
            (0 <= t@ < old(self)@.replies.len() && old(self)@.replies[t@] is Pending) ==> {
                &&& r is Ok
                &&& final(self)@.replies == old(self)@.replies.update(t@, ReplyState::Fulfilled(outcome))
                &&& final(self)@.queue == old(self)@.queue
            },
            !(0 <= t@ < old(self)@.replies.len() && old(self)@.replies[t@] is Pending) ==> {
                &&& r == Err::<(), ChannelError>(ChannelError::AlreadyFulfilled)
                &&& final(self)@ == old(self)@
            },
    {
        if t.id < self.replies.len() {
            let pending = match &self.replies[t.id] {
                ReplyState::Pending => true,
                _ => false,
            };
            if pending {
                self.replies.set(t.id, ReplyState::Fulfilled(outcome));
                return Ok(());
            }
            Err(ChannelError::AlreadyFulfilled)
        } else {
            Err(ChannelError::AlreadyFulfilled)
        }
    }

    /// Whether the reply named by the ticket is fulfilled and ready to take.
    pub fn reply_ready(&self, t: ReplyTicket) -> (r: bool)
        ensures
            r == (0 <= t@ < self@.replies.len() && self@.replies[t@] is Fulfilled),
    {
        if t.id < self.replies.len() {
            match &self.replies[t.id] {
                ReplyState::Fulfilled(_) => true,
                _ => false,
            }
        } else {
            false
        }
    }

    /// The awaiting caller takes the outcome of a fulfilled reply.
    ///
    /// If the reply was never fulfilled — the sending half was dropped, or the
    /// caller stopped waiting for a worker that went silent — the caller gets
    /// [`ChannelError::NeverFulfilled`] rather than an outcome; an embedding
    /// program's bounded wait therefore ends in an error, never a hang.
    pub fn await_reply(&mut self, t: ReplyTicket) -> (r: Result<LoadModelResult, ChannelError>)
        ensures
            (0 <= t@ < old(self)@.replies.len() && old(self)@.replies[t@] is Fulfilled) ==> {
                &&& old(self)@.replies[t@] matches ReplyState::Fulfilled(outcome) && r == Ok::<
                    LoadModelResult,
                    ChannelError,
                >(outcome)
                &&& final(self)@.replies == old(self)@.replies.update(t@, ReplyState::Taken)
                &&& final(self)@.queue == old(self)@.queue
            },
            !(0 <= t@ < old(self)@.replies.len() && old(self)@.replies[t@] is Fulfilled) ==> {
                &&& r == Err::<LoadModelResult, ChannelError>(ChannelError::NeverFulfilled)
                &&& final(self)@ == old(self)@
            },
    {
        if t.id < self.replies.len() {
            let fulfilled = match &self.replies[t.id] {
                ReplyState::Fulfilled(_) => true,
                _ => false,
            };
            if fulfilled {
                let mut taken = ReplyState::Taken;
                self.replies.set_and_swap(t.id, &mut taken);
                match taken {
                    ReplyState::Fulfilled(outcome) => return Ok(outcome),
                    // The reply was checked to be fulfilled just above.
                    _ => return Err(ChannelError::NeverFulfilled),
                }
            }
            Err(ChannelError::NeverFulfilled)
        } else {
            Err(ChannelError::NeverFulfilled)
        }
    }
}

} // verus!
