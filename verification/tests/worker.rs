use window_timers::{
    Chan, ControlMsg, JSVal, TimerControlMsg, TimerData, TimerWorker, WorkerState,
};

fn val(v: u64) -> JSVal {
    JSVal { v }
}

fn data(funval: u64, args: &[u64]) -> TimerData {
    TimerData { funval: val(funval), args: args.iter().map(|v| val(*v)).collect() }
}

fn drain(chan: &mut Chan<ControlMsg>) -> Vec<ControlMsg> {
    let mut out = Vec::new();
    while let Some(msg) = chan.recv() {
        out.push(msg);
    }
    out
}

#[test]
fn worker_starts_running() {
    let worker = TimerWorker::new(Chan::new());
    assert_eq!(worker.state, WorkerState::Running);
    assert!(!worker.is_terminated());
    assert!(worker.content_chan.is_empty());
}

#[test]
fn worker_keeps_what_is_already_on_the_content_channel() {
    let mut content: Chan<ControlMsg> = Chan::new();
    content.send(ControlMsg::Exit);
    let mut worker = TimerWorker::new(content);
    worker.handle(TimerControlMsg::Fire(data(1, &[2])));
    assert_eq!(
        drain(&mut worker.content_chan),
        vec![ControlMsg::Exit, ControlMsg::Timer(data(1, &[2]))]
    );
}

#[test]
fn fire_is_forwarded_as_timer() {
    let mut worker = TimerWorker::new(Chan::new());
    worker.handle(TimerControlMsg::Fire(data(11, &[1, 2, 3])));
    assert_eq!(worker.state, WorkerState::Running);
    assert_eq!(drain(&mut worker.content_chan), vec![ControlMsg::Timer(data(11, &[1, 2, 3]))]);
}

#[test]
fn trigger_exit_is_forwarded_as_exit() {
    let mut worker = TimerWorker::new(Chan::new());
    worker.handle(TimerControlMsg::TriggerExit);
    assert_eq!(worker.state, WorkerState::Running);
    assert!(!worker.is_terminated());
    assert_eq!(drain(&mut worker.content_chan), vec![ControlMsg::Exit]);
}

#[test]
fn close_stops_the_worker_and_forwards_nothing() {
    let mut worker = TimerWorker::new(Chan::new());
    worker.handle(TimerControlMsg::Close);
    assert_eq!(worker.state, WorkerState::Terminated);
    assert!(worker.is_terminated());
    assert!(worker.content_chan.is_empty());
}

#[test]
fn stopped_worker_forwards_nothing() {
    let mut worker = TimerWorker::new(Chan::new());
    worker.handle(TimerControlMsg::Close);
    worker.handle(TimerControlMsg::TriggerExit);
    worker.handle(TimerControlMsg::Fire(data(1, &[])));
    worker.handle(TimerControlMsg::Close);
    assert_eq!(worker.state, WorkerState::Terminated);
    assert!(worker.content_chan.is_empty());
}

#[test]
fn run_on_an_empty_inbox_leaves_the_worker_running() {
    let mut worker = TimerWorker::new(Chan::new());
    let mut inbox: Chan<TimerControlMsg> = Chan::new();
    worker.run(&mut inbox);
    assert_eq!(worker.state, WorkerState::Running);
    assert!(worker.content_chan.is_empty());
    assert!(inbox.is_empty());
}

#[test]
fn run_forwards_in_order_until_the_inbox_is_empty() {
    let mut worker = TimerWorker::new(Chan::new());
    let mut inbox: Chan<TimerControlMsg> = Chan::new();
    inbox.send(TimerControlMsg::Fire(data(1, &[10])));
    inbox.send(TimerControlMsg::TriggerExit);
    inbox.send(TimerControlMsg::Fire(data(2, &[])));
    worker.run(&mut inbox);
    assert_eq!(worker.state, WorkerState::Running);
    assert!(inbox.is_empty());
    assert_eq!(
        drain(&mut worker.content_chan),
        vec![
            ControlMsg::Timer(data(1, &[10])),
            ControlMsg::Exit,
            ControlMsg::Timer(data(2, &[])),
        ]
    );
}

#[test]
fn run_stops_at_close_and_leaves_the_rest() {
    let mut worker = TimerWorker::new(Chan::new());
    let mut inbox: Chan<TimerControlMsg> = Chan::new();
    inbox.send(TimerControlMsg::TriggerExit);
    inbox.send(TimerControlMsg::Close);
    inbox.send(TimerControlMsg::Fire(data(3, &[4])));
    inbox.send(TimerControlMsg::TriggerExit);
    inbox.send(TimerControlMsg::Close);
    worker.run(&mut inbox);
    assert_eq!(worker.state, WorkerState::Terminated);
    assert_eq!(drain(&mut worker.content_chan), vec![ControlMsg::Exit]);
    assert_eq!(inbox.len(), 3);
    assert_eq!(inbox.recv(), Some(TimerControlMsg::Fire(data(3, &[4]))));
    assert_eq!(inbox.recv(), Some(TimerControlMsg::TriggerExit));
    assert_eq!(inbox.recv(), Some(TimerControlMsg::Close));
}

#[test]
fn run_of_a_stopped_worker_takes_nothing() {
    let mut worker = TimerWorker::new(Chan::new());
    let mut inbox: Chan<TimerControlMsg> = Chan::new();
    inbox.send(TimerControlMsg::Close);
    worker.run(&mut inbox);
    assert!(worker.is_terminated());
    inbox.send(TimerControlMsg::TriggerExit);
    inbox.send(TimerControlMsg::Fire(data(1, &[])));
    worker.run(&mut inbox);
    assert!(worker.is_terminated());
    assert!(worker.content_chan.is_empty());
    assert_eq!(inbox.len(), 2);
}

#[test]
fn run_can_be_resumed_when_more_arrives() {
    let mut worker = TimerWorker::new(Chan::new());
    let mut inbox: Chan<TimerControlMsg> = Chan::new();
    inbox.send(TimerControlMsg::TriggerExit);
    worker.run(&mut inbox);
    assert!(!worker.is_terminated());
    inbox.send(TimerControlMsg::Fire(data(8, &[9])));
    inbox.send(TimerControlMsg::Close);
    worker.run(&mut inbox);
    assert!(worker.is_terminated());
    assert!(inbox.is_empty());
    assert_eq!(
        drain(&mut worker.content_chan),
        vec![ControlMsg::Exit, ControlMsg::Timer(data(8, &[9]))]
    );
}

#[test]
fn close_first_means_nothing_is_forwarded() {
    let mut worker = TimerWorker::new(Chan::new());
    let mut inbox: Chan<TimerControlMsg> = Chan::new();
    inbox.send(TimerControlMsg::Close);
    inbox.send(TimerControlMsg::TriggerExit);
    worker.run(&mut inbox);
    assert!(worker.is_terminated());
    assert!(worker.content_chan.is_empty());
    assert_eq!(inbox.len(), 1);
}

#[test]
fn handling_each_message_forwards_what_the_loop_forwards() {
    let script = || {
        vec![
            TimerControlMsg::Fire(data(1, &[2, 3])),
            TimerControlMsg::TriggerExit,
            TimerControlMsg::Close,
            TimerControlMsg::Fire(data(4, &[])),
            TimerControlMsg::TriggerExit,
        ]
    };
    let mut by_hand = TimerWorker::new(Chan::new());
    for msg in script() {
        by_hand.handle(msg);
    }
    let mut looped = TimerWorker::new(Chan::new());
    let mut inbox: Chan<TimerControlMsg> = Chan::new();
    for msg in script() {
        inbox.send(msg);
    }
    looped.run(&mut inbox);
    assert_eq!(by_hand.state, looped.state);
    assert_eq!(by_hand.state, WorkerState::Terminated);
    let expected = vec![ControlMsg::Timer(data(1, &[2, 3])), ControlMsg::Exit];
    assert_eq!(drain(&mut by_hand.content_chan), expected);
    assert_eq!(drain(&mut looped.content_chan), expected);
    assert_eq!(inbox.len(), 2);
}
