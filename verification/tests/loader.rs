use moxin::channel::{
    Command, CommandChannel, ContextOverflowPolicy, GPULayers, LoadModelResponse, LoadedModelInfo,
    ReplyTicket,
};
use moxin::model_loader::{LoadError, ModelLoader, ModelLoaderStatus, StartLoad, UiSignal};

fn completed(file_id: &str) -> LoadModelResponse {
    LoadModelResponse::Completed(LoadedModelInfo {
        file_id: file_id.to_string(),
        model_id: "model".to_string(),
    })
}

fn dispatched_ticket(r: Result<StartLoad, LoadError>) -> ReplyTicket {
    match r {
        Ok(StartLoad::Dispatched(t)) => t,
        other => panic!("expected a dispatched load, got {:?}", other),
    }
}

/// One successful worker round trip for the load that `start_load` dispatched.
fn worker_succeeds(chan: &mut CommandChannel, t: ReplyTicket) {
    let cmd = chan.take_next().expect("a command should be queued");
    let Command::LoadModel(file_id, _opts, cmd_ticket) = cmd;
    assert_eq!(cmd_ticket, t);
    chan.fulfill(cmd_ticket, Ok(completed(&file_id))).expect("first fulfilment succeeds");
}

#[test]
fn scenario_load_reload_and_switch() {
    let mut loader = ModelLoader::new();
    let mut chan = CommandChannel::new();
    let mut signal = UiSignal::new();

    // Fresh coordinator.
    assert!(matches!(loader.status(), ModelLoaderStatus::Unloaded));

    // request_load("modelA", 4096) against a worker that always succeeds:
    // status runs Unloaded -> Loading -> Loaded.
    let r = loader.start_load("modelA".to_string(), 4096, &mut chan);
    let t = dispatched_ticket(r);
    assert!(matches!(loader.status(), ModelLoaderStatus::Loading));
    worker_succeeds(&mut chan, t);
    let reply = chan.await_reply(t);
    let fin = loader.finish_load(reply, &mut signal);
    assert!(fin.is_ok());
    assert!(matches!(loader.status(), ModelLoaderStatus::Loaded));
    assert_eq!(loader.file_id(), Some("modelA".to_string()));
    assert_eq!(loader.context_window(), 4096);

    // The identical request is an immediate success: no new command at the
    // worker.
    let r2 = loader.start_load("modelA".to_string(), 4096, &mut chan);
    assert!(matches!(r2, Ok(StartLoad::AlreadyLoaded)));
    assert_eq!(chan.queue_len(), 0);
    assert!(matches!(loader.status(), ModelLoaderStatus::Loaded));

    // A different model goes through a fresh round trip:
    // Loaded -> Loading -> Loaded, now tracking "modelB".
    let r3 = loader.start_load("modelB".to_string(), 4096, &mut chan);
    let t3 = dispatched_ticket(r3);
    assert!(matches!(loader.status(), ModelLoaderStatus::Loading));
    worker_succeeds(&mut chan, t3);
    let fin3 = loader.finish_load(chan.await_reply(t3), &mut signal);
    assert!(fin3.is_ok());
    assert!(matches!(loader.status(), ModelLoaderStatus::Loaded));
    assert_eq!(loader.file_id(), Some("modelB".to_string()));
}

#[test]
fn fast_rejection_while_loading() {
    let mut loader = ModelLoader::new();
    let mut chan = CommandChannel::new();

    let r = loader.start_load("modelA".to_string(), 2048, &mut chan);
    assert!(matches!(r, Ok(StartLoad::Dispatched(_))));
    assert_eq!(chan.queue_len(), 1);

    // While the load is in flight, any further request is rejected at once:
    // same pair, different pair, it does not matter.
    let rejected = loader.start_load("modelB".to_string(), 512, &mut chan);
    assert_eq!(rejected, Err(LoadError::LoadInProgress));
    let rejected_same = loader.start_load("modelA".to_string(), 2048, &mut chan);
    assert_eq!(rejected_same, Err(LoadError::LoadInProgress));

    // Nothing was queued and nothing was mutated by the rejected requests.
    assert_eq!(chan.queue_len(), 1);
    assert!(matches!(loader.status(), ModelLoaderStatus::Loading));
    assert_eq!(loader.file_id(), Some("modelA".to_string()));
    assert_eq!(loader.context_window(), 2048);
}

#[test]
fn idempotent_reload_sends_no_second_command() {
    let mut loader = ModelLoader::new();
    let mut chan = CommandChannel::new();
    let mut signal = UiSignal::new();

    let t = dispatched_ticket(loader.start_load("modelA".to_string(), 4096, &mut chan));
    worker_succeeds(&mut chan, t);
    loader.finish_load(chan.await_reply(t), &mut signal).expect("the load succeeds");

    // Exactly one worker round trip happened; the second identical call
    // returns success immediately and issues zero additional commands.
    let r2 = loader.start_load("modelA".to_string(), 4096, &mut chan);
    assert!(matches!(r2, Ok(StartLoad::AlreadyLoaded)));
    assert_eq!(chan.queue_len(), 0);

    // A different context window for the same model is not idempotent.
    let r3 = loader.start_load("modelA".to_string(), 8192, &mut chan);
    assert!(matches!(r3, Ok(StartLoad::Dispatched(_))));
    assert_eq!(chan.queue_len(), 1);
}

#[test]
fn worker_failure_sets_failed_and_wraps_description() {
    let mut loader = ModelLoader::new();
    let mut chan = CommandChannel::new();
    let mut signal = UiSignal::new();

    let t = dispatched_ticket(loader.start_load("modelA".to_string(), 4096, &mut chan));
    let cmd = chan.take_next().expect("a command should be queued");
    let Command::LoadModel(_, _, cmd_ticket) = cmd;
    chan.fulfill(cmd_ticket, Err("out of memory".to_string())).expect("fulfilment succeeds");

    let fin = loader.finish_load(chan.await_reply(t), &mut signal);
    assert_eq!(fin, Err(LoadError::Worker("out of memory".to_string())));
    assert!(loader.is_failed());

    // The error's description is the worker's, verbatim.
    match fin {
        Err(e) => assert_eq!(e.message(), "out of memory".to_string()),
        Ok(()) => unreachable!(),
    }

    // A failed coordinator accepts a fresh request.
    let r2 = loader.start_load("modelA".to_string(), 4096, &mut chan);
    assert!(matches!(r2, Ok(StartLoad::Dispatched(_))));
}

#[test]
fn unexpected_response_sets_failed() {
    let mut loader = ModelLoader::new();
    let mut chan = CommandChannel::new();
    let mut signal = UiSignal::new();

    let t = dispatched_ticket(loader.start_load("modelA".to_string(), 4096, &mut chan));
    let cmd = chan.take_next().expect("a command should be queued");
    let Command::LoadModel(file_id, _, cmd_ticket) = cmd;
    chan.fulfill(cmd_ticket, Ok(LoadModelResponse::Progress(file_id, 50)))
        .expect("fulfilment succeeds");

    let fin = loader.finish_load(chan.await_reply(t), &mut signal);
    assert!(matches!(fin, Err(LoadError::UnexpectedResponse(_))));
    assert!(loader.is_failed());
}

#[test]
fn abandoned_reply_is_an_error_not_a_hang() {
    let mut loader = ModelLoader::new();
    let mut chan = CommandChannel::new();
    let mut signal = UiSignal::new();

    let t = dispatched_ticket(loader.start_load("modelA".to_string(), 4096, &mut chan));
    // The worker takes the command but never fulfils the reply.
    let _dropped = chan.take_next().expect("a command should be queued");

    // A caller whose bounded wait expires awaits the unfulfilled reply and
    // gets the internal-communication error, not a hang.
    let fin = loader.finish_load(chan.await_reply(t), &mut signal);
    assert_eq!(fin, Err(LoadError::InternalCommunication));
    assert!(loader.is_failed());
    match fin {
        Err(e) => assert_eq!(e.message(), "Internal communication error".to_string()),
        Ok(()) => unreachable!(),
    }
}

fn assert_predicates_consistent(loader: &ModelLoader) {
    assert_eq!(loader.is_finished(), loader.is_loaded() || loader.is_failed());
    assert_eq!(loader.is_pending(), !loader.is_finished());
}

#[test]
fn predicates_consistent_in_every_reachable_state() {
    let mut loader = ModelLoader::new();
    let mut chan = CommandChannel::new();
    let mut signal = UiSignal::new();

    // Unloaded.
    assert!(loader.is_pending() && !loader.is_loading());
    assert_predicates_consistent(&loader);

    // Loading.
    let t = dispatched_ticket(loader.start_load("modelA".to_string(), 4096, &mut chan));
    assert!(loader.is_loading() && loader.is_pending());
    assert_predicates_consistent(&loader);

    // Loaded.
    worker_succeeds(&mut chan, t);
    loader.finish_load(chan.await_reply(t), &mut signal).expect("the load succeeds");
    assert!(loader.is_loaded() && loader.is_finished() && !loader.is_pending());
    assert_predicates_consistent(&loader);

    // Failed.
    let t2 = dispatched_ticket(loader.start_load("modelB".to_string(), 4096, &mut chan));
    let Command::LoadModel(_, _, ct) = chan.take_next().expect("a command should be queued");
    chan.fulfill(ct, Err("boom".to_string())).expect("fulfilment succeeds");
    let _ = loader.finish_load(chan.await_reply(t2), &mut signal);
    assert!(loader.is_failed() && loader.is_finished() && !loader.is_pending());
    assert_predicates_consistent(&loader);
}

#[test]
fn get_loading_file_id_only_while_loading() {
    let mut loader = ModelLoader::new();
    let mut chan = CommandChannel::new();
    let mut signal = UiSignal::new();

    assert_eq!(loader.get_loading_file_id(), None);

    let t = dispatched_ticket(loader.start_load("modelA".to_string(), 4096, &mut chan));
    assert_eq!(loader.get_loading_file_id(), Some("modelA".to_string()));

    worker_succeeds(&mut chan, t);
    loader.finish_load(chan.await_reply(t), &mut signal).expect("the load succeeds");
    // Loaded, not loading: the identifier is still tracked but not "loading".
    assert_eq!(loader.get_loading_file_id(), None);
    assert_eq!(loader.file_id(), Some("modelA".to_string()));
}

#[test]
fn fresh_loader_tracks_nothing() {
    let loader = ModelLoader::new();
    assert!(matches!(loader.status(), ModelLoaderStatus::Unloaded));
    assert_eq!(loader.file_id(), None);
    assert_eq!(loader.context_window(), 0);

    let by_default = ModelLoader::default();
    assert!(matches!(by_default.status(), ModelLoaderStatus::Unloaded));
    assert_eq!(by_default.file_id(), None);

    assert!(matches!(ModelLoaderStatus::default(), ModelLoaderStatus::Unloaded));
}

#[test]
fn ui_signal_set_on_every_finalize_and_cleared_on_check() {
    let mut loader = ModelLoader::new();
    let mut chan = CommandChannel::new();
    let mut signal = UiSignal::new();
    assert!(!signal.check_and_clear());

    let t = dispatched_ticket(loader.start_load("modelA".to_string(), 4096, &mut chan));
    worker_succeeds(&mut chan, t);
    loader.finish_load(chan.await_reply(t), &mut signal).expect("the load succeeds");

    // The transition was signalled; the check consumes the signal.
    assert!(signal.check_and_clear());
    assert!(!signal.check_and_clear());
}

#[test]
fn dispatched_command_carries_default_options() {
    let mut loader = ModelLoader::new();
    let mut chan = CommandChannel::new();

    let t = dispatched_ticket(loader.start_load("modelA".to_string(), 4096, &mut chan));
    let Command::LoadModel(file_id, opts, cmd_ticket) =
        chan.take_next().expect("a command should be queued");
    assert_eq!(file_id, "modelA".to_string());
    assert_eq!(cmd_ticket, t);
    assert_eq!(opts.prompt_template, None);
    assert!(matches!(opts.gpu_layers, GPULayers::Max));
    assert!(!opts.use_mlock);
    assert!(matches!(opts.context_overflow_policy, ContextOverflowPolicy::StopAtLimit));
    assert_eq!(opts.n_batch, None);
    assert_eq!(opts.n_ctx, 4096);
}

#[test]
fn load_error_messages() {
    assert_eq!(
        LoadError::LoadInProgress.message(),
        "ModelLoader is already loading a model".to_string()
    );
    assert_eq!(LoadError::Worker("boom".to_string()).message(), "boom".to_string());
    assert_eq!(
        LoadError::UnexpectedResponse(LoadModelResponse::Progress("f".to_string(), 1)).message(),
        "Unexpected response from the worker".to_string()
    );
    assert_eq!(
        LoadError::InternalCommunication.message(),
        "Internal communication error".to_string()
    );
}
