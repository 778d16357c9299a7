//! The load coordinator: the only place that decides whether a load request
//! is forwarded to the worker, and the only writer of the load status.
//!
//! A load request runs in two atomic steps around the worker round trip:
//! [`ModelLoader::start_load`] is the read-decide-write critical section that
//! either rejects the request, short-circuits it, or records the load as in
//! flight and dispatches a command; [`ModelLoader::finish_load`] finalizes the
//! status from the awaited reply.  An embedding program holds its lock exactly
//! for the duration of each step — never while awaiting the reply — and runs
//! the blocking wait between the two.

use crate::channel::{
    Command, CommandChannel, ContextOverflowPolicy, GPULayers, LoadModelOptions,
    LoadModelResponse, LoadModelResult, ChannelError, ReplyState, ReplyTicket,
};
use vstd::prelude::*;

verus! {

/// All possible states in which the loader can be.
#[derive(Clone, Copy, Debug, PartialEq, Eq, Structural)]
pub enum ModelLoaderStatus {
    Unloaded,
    Loading,
    Loaded,
    Failed,
}

impl Default for ModelLoaderStatus {
    /// A loader starts out with nothing loaded.
    fn default() -> (r: Self)
        ensures
            r is Unloaded,
    {
        ModelLoaderStatus::Unloaded
    }
}

/// The mathematical content of a [`ModelLoader`]: the status, and the
/// identifier and context window of the load in flight or last succeeded.
pub struct LoaderModel {
    pub status: ModelLoaderStatus,
    pub file_id: Option<Seq<char>>,
    pub context_window: u32,
}

/// A request is rejected exactly when a load is already in flight.
pub open spec fn request_rejected(s: LoaderModel) -> bool {
    s.status is Loading
}

/// A request is an idempotent reload — success without contacting the worker —
/// exactly when the requested pair equals the currently loaded one.
pub open spec fn request_idempotent(s: LoaderModel, file_id: Seq<char>, context_window: u32) -> bool {
    &&& s.status is Loaded
    &&& s.file_id == Some(file_id)
    &&& s.context_window == context_window
}

/// Every other request transitions the loader to `Loading` and dispatches one
/// load command to the worker.
pub open spec fn request_dispatches(s: LoaderModel, file_id: Seq<char>, context_window: u32) -> bool {
    &&& !request_rejected(s)
    &&& !request_idempotent(s, file_id, context_window)
}

/// The coordinator state after the read-decide-write step of a request.
pub open spec fn request_next(s: LoaderModel, file_id: Seq<char>, context_window: u32) -> LoaderModel {
    if request_dispatches(s, file_id, context_window) {
        LoaderModel { status: ModelLoaderStatus::Loading, file_id: Some(file_id), context_window }
    } else {
        s
    }
}

/// A load attempt has concluded: successfully or not.
pub open spec fn loader_finished(s: LoaderModel) -> bool {
    s.status is Loaded || s.status is Failed
}

/// No load attempt has concluded yet.
pub open spec fn loader_pending(s: LoaderModel) -> bool {
    !loader_finished(s)
}

/// A dispatched load succeeds exactly when the awaited reply is the worker's
/// completion response.
pub open spec fn finish_succeeds(reply: Result<LoadModelResult, ChannelError>) -> bool {
    reply matches Ok(Ok(LoadModelResponse::Completed(_)))
}

/// The coordinator state after finalizing a dispatched load.
pub open spec fn finish_next(s: LoaderModel, success: bool) -> LoaderModel {
    LoaderModel {
        status: if success {
            ModelLoaderStatus::Loaded
        } else {
            ModelLoaderStatus::Failed
        },
        file_id: s.file_id,
        context_window: s.context_window,
    }
}

/// Why a load request did not load a model.
#[derive(Clone, Debug, PartialEq)]
pub enum LoadError {
    /// A load is already in progress; the request was rejected without
    /// contacting the worker.  Recoverable: the caller may retry later.
    LoadInProgress,
    /// The worker reported that the load failed, with its description.
    Worker(String),
    /// The worker answered a load command with something other than a
    /// completion; the response is carried along.
    UnexpectedResponse(LoadModelResponse),
    /// The reply was never fulfilled or the channel was severed: the worker
    /// side is gone, as opposed to the model failing to load.
    InternalCommunication,
}

impl LoadError {
    /// A human-readable description of the error.
    pub fn message(&self) -> (r: String)
        ensures
            self is LoadInProgress ==> r@ == "ModelLoader is already loading a model"@,
            self matches LoadError::Worker(m) ==> r@ == m@,
            self is UnexpectedResponse ==> r@ == "Unexpected response from the worker"@,
            self is InternalCommunication ==> r@ == "Internal communication error"@,
    {
        match self {
            LoadError::LoadInProgress => "ModelLoader is already loading a model".to_owned(),
            LoadError::Worker(m) => m.clone(),
            LoadError::UnexpectedResponse(_) => "Unexpected response from the worker".to_owned(),
            LoadError::InternalCommunication => "Internal communication error".to_owned(),
        }
    }
}

/// The outcome of the read-decide-write step of a load request.
#[derive(Clone, Copy, Debug, PartialEq)]
pub enum StartLoad {
    /// The requested model is already loaded with identical parameters: the
    /// request is a no-op success, no command was sent.
    AlreadyLoaded,
    /// The load was recorded as in flight and one command was dispatched; the
    /// caller must await the reply named by the ticket and then finalize with
    /// [`ModelLoader::finish_load`].
    Dispatched(ReplyTicket),
}

/// A process-wide "refresh requested" flag, in value form: the coordinator
/// sets it after every status transition, a presentation layer checks and
/// clears it.  An embedding program keeps one such value per process.
pub struct UiSignal {
    set: bool,
}

impl View for UiSignal {
    type V = bool;

    closed spec fn view(&self) -> bool {
        self.set
    }
}

impl UiSignal {
    /// A fresh, unset signal.
    pub fn new() -> (r: UiSignal)
        ensures
            !r@,
    {
        UiSignal { set: false }
    }

    /// Requests a refresh.
    pub fn set_ui_signal(&mut self)
        ensures
            final(self)@,
    {
        self.set = true;
    }

    /// Whether a refresh was requested since the last check; clears the flag.
    pub fn check_and_clear(&mut self) -> (r: bool)
        ensures
            r == old(self)@,
            !final(self)@,
    {
        let was_set = self.set;
        self.set = false;
        was_set
    }
}

/// Unit for handling the loading of models.
///
/// The fields are owned by the coordinator alone; readers get copies.  To
/// share one loader across threads, an embedding program wraps it in its own
/// mutual-exclusion lock and calls each operation as one atomic critical
/// section, so no reader ever observes a half-updated state.
pub struct ModelLoader {
    status: ModelLoaderStatus,
    file_id: Option<String>,
    context_window: u32,
}

impl View for ModelLoader {
    type V = LoaderModel;

    closed spec fn view(&self) -> LoaderModel {
        LoaderModel {
            status: self.status,
            file_id: match self.file_id {
                Some(f) => Some(f@),
                None => None,
            },
            context_window: self.context_window,
        }
    }
}

impl Default for ModelLoader {
    /// A fresh coordinator: nothing loaded, no model tracked.
    fn default() -> (r: Self)
        ensures
            r@.status is Unloaded,
            r@.file_id is None,
            r@.context_window == 0,
    {
        ModelLoader { status: ModelLoaderStatus::Unloaded, file_id: None, context_window: 0 }
    }
}

impl ModelLoader {
    /// A fresh coordinator: nothing loaded, no model tracked.
    pub fn new() -> (r: Self)
        ensures
            r@.status is Unloaded,
            r@.file_id is None,
            r@.context_window == 0,
    {
        Self::default()
    }

    /// The identifier of the model of the current or last load; `None` if the
    /// loader never tracked one.
    pub fn file_id(&self) -> (r: Option<String>)
        ensures
            r matches Some(f) ==> self@.file_id == Some(f@),
            r is None ==> self@.file_id is None,
    {
        self.file_id.clone()
    }

    /// The context window of the current or last load.
    pub fn context_window(&self) -> (r: u32)
        ensures
            r == self@.context_window,
    {
        self.context_window
    }

    /// Non-blocking read of the current status.  No side effects.
    pub fn status(&self) -> (r: ModelLoaderStatus)
        ensures
            r == self@.status,
    {
        self.status
    }

    pub fn is_loaded(&self) -> (r: bool)
        ensures
            r == (self@.status is Loaded),
    {
        matches!(self.status, ModelLoaderStatus::Loaded)
    }

    pub fn is_loading(&self) -> (r: bool)
        ensures
            r == (self@.status is Loading),
    {
        matches!(self.status, ModelLoaderStatus::Loading)
    }

    pub fn is_failed(&self) -> (r: bool)
        ensures
            r == (self@.status is Failed),
    {
        matches!(self.status, ModelLoaderStatus::Failed)
    }

    /// A load attempt has concluded: successfully or not.
    pub fn is_finished(&self) -> (r: bool)
        ensures
            r == loader_finished(self@),
            r == (self@.status is Loaded || self@.status is Failed),
    {
        self.is_loaded() || self.is_failed()
    }

    /// No load attempt has concluded yet.
    pub fn is_pending(&self) -> (r: bool)
        ensures
            r == loader_pending(self@),
            r == !(self@.status is Loaded || self@.status is Failed),
    {
        !self.is_finished()
    }

    /// The identifier of the model that is currently being loaded.
    /// Returns `None` if the loader is not in a loading state.
    pub fn get_loading_file_id(&self) -> (r: Option<String>)
        ensures
            self@.status is Loading ==> {
                &&& (r matches Some(f) ==> self@.file_id == Some(f@))
                &&& (r is None ==> self@.file_id is None)
            },
            !(self@.status is Loading) ==> r is None,
    {
        if self.is_loading() {
            return self.file_id();
        }
        None
    }

    /// The read-decide-write step of a load request, one atomic critical
    /// section:
    ///
    /// - a load already in flight rejects the request immediately — nothing is
    ///   queued, nothing changes (the in-flight load is not cancelled);
    /// - reloading the already-loaded model with identical parameters is a
    ///   no-op success, without contacting the worker;
    /// - otherwise the loader records the requested pair, transitions to
    ///   `Loading`, and dispatches exactly one load command with a fresh
    ///   reply destination.
    pub fn start_load(&mut self, file_id: String, context_window: u32, chan: &mut CommandChannel) -> (r:
        Result<StartLoad, LoadError>)
        ensures
            final(self)@ == request_next(old(self)@, file_id@, context_window),
            r is Err <==> request_rejected(old(self)@),
            r is Err ==> r == Err::<StartLoad, LoadError>(LoadError::LoadInProgress) && final(chan)@
                == old(chan)@,
            r == Ok::<StartLoad, LoadError>(StartLoad::AlreadyLoaded) <==> request_idempotent(
                old(self)@,
                file_id@,
                context_window,
            ),
            r == Ok::<StartLoad, LoadError>(StartLoad::AlreadyLoaded) ==> final(chan)@ == old(chan)@,
            (r matches Ok(StartLoad::Dispatched(t))) <==> request_dispatches(
                old(self)@,
                file_id@,
                context_window,
            ),
            r matches Ok(StartLoad::Dispatched(t)) ==> {
                &&& t@ == old(chan)@.replies.len()
                &&& final(chan)@.replies == old(chan)@.replies.push(ReplyState::Pending)
                &&& final(chan)@.queue.len() == old(chan)@.queue.len() + 1
                &&& (forall|i: int|
                    0 <= i < old(chan)@.queue.len() ==> final(chan)@.queue[i] == old(chan)@.queue[i])
                &&& is_load_command(final(chan)@.queue.last(), file_id@, context_window, t@)
            },
    {
        match self.status() {
            ModelLoaderStatus::Loading => {
                return Err(LoadError::LoadInProgress);
            },
            ModelLoaderStatus::Loaded => {
                if let Some(prev_file_id) = &self.file_id {
                    if *prev_file_id == file_id && context_window == self.context_window {
                        return Ok(StartLoad::AlreadyLoaded);
                    }
                }
            },
            _ => {},
        }
        self.status = ModelLoaderStatus::Loading;
        self.file_id = Some(file_id.clone());
        self.context_window = context_window;
        let ticket = dispatch_load_command(chan, file_id, context_window);
        Ok(StartLoad::Dispatched(ticket))
    }

    /// Finalizes a dispatched load from the awaited reply, one atomic critical
    /// section: the worker's completion response sets the status to `Loaded`;
    /// a worker-reported failure, an unexpected response, or a transport fault
    /// sets it to `Failed` and surfaces the corresponding error.  Either way
    /// the tracked pair is kept and a refresh of the observers is requested.
    pub fn finish_load(&mut self, reply: Result<LoadModelResult, ChannelError>, signal: &mut UiSignal) -> (r:
        Result<(), LoadError>)
        ensures
            final(self)@ == finish_next(old(self)@, finish_succeeds(reply)),
            r is Ok <==> finish_succeeds(reply),
            reply matches Ok(Err(m)) ==> r == Err::<(), LoadError>(LoadError::Worker(m)),
            reply matches Ok(Ok(resp)) ==> (!(resp matches LoadModelResponse::Completed(_)) ==> r
                == Err::<(), LoadError>(LoadError::UnexpectedResponse(resp))),
            reply is Err ==> r == Err::<(), LoadError>(LoadError::InternalCommunication),
            final(signal)@,
    {
        let result = match reply {
            Ok(outcome) => match outcome {
                Ok(response) => match response {
                    LoadModelResponse::Completed(_) => {
                        self.status = ModelLoaderStatus::Loaded;
                        Ok(())
                    },
                    other => {
                        self.status = ModelLoaderStatus::Failed;
                        Err(LoadError::UnexpectedResponse(other))
                    },
                },
                Err(m) => {
                    self.status = ModelLoaderStatus::Failed;
                    Err(LoadError::Worker(m))
                },
            },
            Err(_) => {
                self.status = ModelLoaderStatus::Failed;
                Err(LoadError::InternalCommunication)
            },
        };
        signal.set_ui_signal();
        result
    }
}

/// Whether a command is a load command for the given identifier and context
/// window, carrying the default load options and the given reply ticket.
pub open spec fn is_load_command(c: Command, file_id: Seq<char>, context_window: u32, ticket: int) -> bool {
    match c {
        Command::LoadModel(f, opts, t) => {
            &&& f@ == file_id
            &&& is_default_load_options(opts, context_window)
            &&& t@ == ticket
        },
    }
}

/// The options every load command carries: only the context window varies.
pub open spec fn is_default_load_options(opts: LoadModelOptions, n_ctx: u32) -> bool {
    &&& opts.prompt_template is None
    &&& opts.gpu_layers is Max
    &&& !opts.use_mlock
    &&& opts.context_overflow_policy is StopAtLimit
    &&& opts.n_batch is None
    &&& opts.n_ctx == n_ctx
}

/// Builds a load command for the given identifier and context window with the
/// default options and a fresh reply destination, enqueues it for the worker,
/// and returns the ticket to await the reply on.
pub fn dispatch_load_command(chan: &mut CommandChannel, file_id: String, context_window: u32) -> (t:
    ReplyTicket)
    ensures
        t@ == old(chan)@.replies.len(),
        final(chan)@.replies == old(chan)@.replies.push(ReplyState::Pending),
        final(chan)@.queue.len() == old(chan)@.queue.len() + 1,
        forall|i: int|
            0 <= i < old(chan)@.queue.len() ==> final(chan)@.queue[i] == old(chan)@.queue[i],
        is_load_command(final(chan)@.queue.last(), file_id@, context_window, t@),
{
    let ticket = chan.create_reply();
    let cmd = Command::LoadModel(
        file_id,
        LoadModelOptions {
            prompt_template: None,
            gpu_layers: GPULayers::Max,
            use_mlock: false,
            context_overflow_policy: ContextOverflowPolicy::StopAtLimit,
            n_batch: None,
            n_ctx: context_window,
        },
        ticket,
    );
    chan.send(cmd);
    ticket
}

} // verus!
