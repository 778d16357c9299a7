use moxin::channel::{
    ChannelError, Command, CommandChannel, LoadModelResponse, LoadedModelInfo,
};
use moxin::model_loader::dispatch_load_command;

fn completed() -> LoadModelResponse {
    LoadModelResponse::Completed(LoadedModelInfo {
        file_id: "f".to_string(),
        model_id: "m".to_string(),
    })
}

#[test]
fn commands_are_delivered_in_send_order() {
    let mut chan = CommandChannel::new();
    let t1 = dispatch_load_command(&mut chan, "first".to_string(), 1024);
    let t2 = dispatch_load_command(&mut chan, "second".to_string(), 2048);
    assert_ne!(t1, t2);
    assert_eq!(chan.queue_len(), 2);

    let Command::LoadModel(f1, o1, c1) = chan.take_next().expect("two commands are queued");
    assert_eq!(f1, "first".to_string());
    assert_eq!(o1.n_ctx, 1024);
    assert_eq!(c1, t1);

    let Command::LoadModel(f2, o2, c2) = chan.take_next().expect("one command is left");
    assert_eq!(f2, "second".to_string());
    assert_eq!(o2.n_ctx, 2048);
    assert_eq!(c2, t2);

    assert!(chan.take_next().is_none());
    assert_eq!(chan.queue_len(), 0);
}

#[test]
fn each_reply_flows_back_independently() {
    let mut chan = CommandChannel::new();
    let t1 = dispatch_load_command(&mut chan, "first".to_string(), 1024);
    let t2 = dispatch_load_command(&mut chan, "second".to_string(), 2048);

    // Fulfil the second command's reply first: the first one is unaffected.
    chan.fulfill(t2, Err("late failure".to_string())).expect("t2 is pending");
    assert!(!chan.reply_ready(t1));
    assert!(chan.reply_ready(t2));

    chan.fulfill(t1, Ok(completed())).expect("t1 is pending");
    assert_eq!(chan.await_reply(t2), Ok(Err("late failure".to_string())));
    assert_eq!(chan.await_reply(t1), Ok(Ok(completed())));
}

#[test]
fn fulfilling_twice_is_a_broken_contract() {
    let mut chan = CommandChannel::new();
    let t = dispatch_load_command(&mut chan, "f".to_string(), 512);
    assert_eq!(chan.fulfill(t, Ok(completed())), Ok(()));
    assert_eq!(
        chan.fulfill(t, Err("second answer".to_string())),
        Err(ChannelError::AlreadyFulfilled)
    );
    // The first outcome is the one that stands.
    assert_eq!(chan.await_reply(t), Ok(Ok(completed())));
}

#[test]
fn awaiting_an_unfulfilled_reply_is_an_error() {
    let mut chan = CommandChannel::new();
    let t = dispatch_load_command(&mut chan, "f".to_string(), 512);
    assert!(!chan.reply_ready(t));
    assert_eq!(chan.await_reply(t), Err(ChannelError::NeverFulfilled));

    // Once taken, a reply cannot be taken again either.
    chan.fulfill(t, Ok(completed())).expect("t is pending");
    assert_eq!(chan.await_reply(t), Ok(Ok(completed())));
    assert_eq!(chan.await_reply(t), Err(ChannelError::NeverFulfilled));

    // And a taken reply cannot be fulfilled anew.
    assert_eq!(chan.fulfill(t, Ok(completed())), Err(ChannelError::AlreadyFulfilled));
}

#[test]
fn fresh_channel_is_empty() {
    let mut chan = CommandChannel::new();
    assert_eq!(chan.queue_len(), 0);
    assert!(chan.take_next().is_none());
}
