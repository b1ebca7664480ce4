use fs_mio::handle::Fs;
use fs_mio::protocol::{exit_task, open_task, println_task, read_task, FsError, SubmitError, Task, TaskResult};
use fs_mio::reactor::{ConfigError, Phase, Reactor, Step, Wake};
use fs_mio::worker::{Job, Outcome, Worker};

const TEST_FILE_VALUE: &str = "Hello, World!";
const FS_TOKEN: usize = 9;

fn reactor() -> Reactor<u32, u32> {
    match Reactor::new(FS_TOKEN, &vec![0, 1]) {
        Ok(r) => r,
        Err(_) => panic!("token refused"),
    }
}

#[test]
fn open_then_read_delivers_the_file_text() {
    let mut w: Worker<u32, &str> = Worker::new();
    match w.accept(Task::Open("f.txt".to_string(), "opened")) {
        Ok(Job::Open(p)) => assert_eq!(p, "f.txt"),
        _ => panic!("expected an open job"),
    }
    match w.finish(Outcome::Opened(Ok(7))) {
        Ok(TaskResult::Open(Ok(h), k)) => {
            assert_eq!(h, 7);
            assert_eq!(k, "opened");
        }
        _ => panic!("expected an open result"),
    }
    match w.accept(Task::ReadToString(7, "read")) {
        Ok(Job::Read(h)) => assert_eq!(h, 7),
        _ => panic!("expected a read job"),
    }
    match w.finish(Outcome::Read(Ok(TEST_FILE_VALUE.to_string()))) {
        Ok(TaskResult::ReadToString(Ok(text), k)) => {
            assert_eq!(text, TEST_FILE_VALUE);
            assert_eq!(k, "read");
        }
        _ => panic!("expected a read result"),
    }
    assert!(w.is_ready());
    assert_eq!(w.tasks_seen(), 2);
}

#[test]
fn missing_path_is_delivered_and_worker_goes_on() {
    let mut w: Worker<u32, u8> = Worker::new();
    assert!(matches!(w.accept(Task::Open("missing.txt".to_string(), 1)), Ok(Job::Open(_))));
    match w.finish(Outcome::Opened(Err(FsError::NotFound))) {
        Ok(TaskResult::Open(Err(e), k)) => {
            assert_eq!(e, FsError::NotFound);
            assert_eq!(k, 1);
        }
        _ => panic!("expected an error result"),
    }
    assert!(w.is_ready());
    assert!(!w.is_stopped());
    assert!(matches!(w.accept(Task::Println("next".to_string())), Ok(Job::Print(s)) if s == "next"));
    assert!(matches!(w.accept(Task::Open("other.txt".to_string(), 2)), Ok(Job::Open(p)) if p == "other.txt"));
}

#[test]
fn invalid_text_is_delivered_as_an_error() {
    let mut w: Worker<u32, u8> = Worker::new();
    assert!(matches!(w.accept(Task::ReadToString(3, 4)), Ok(Job::Read(3))));
    match w.finish(Outcome::Read(Err(FsError::InvalidData))) {
        Ok(TaskResult::ReadToString(Err(e), 4)) => assert_eq!(e, FsError::InvalidData),
        _ => panic!("expected an error result"),
    }
}

#[test]
fn results_follow_submission_order() {
    let mut w: Worker<u32, u32> = Worker::new();
    let mut order = Vec::new();
    for i in 0..5u32 {
        assert!(w.accept(Task::Open(format!("f{}", i), i)).is_ok());
        match w.finish(Outcome::Opened(Ok(i + 100))) {
            Ok(TaskResult::Open(Ok(h), k)) => {
                assert_eq!(h, i + 100);
                order.push(k);
            }
            _ => panic!("expected an open result"),
        }
        assert!(w.accept(Task::ReadToString(i + 100, i + 10)).is_ok());
        match w.finish(Outcome::Read(Ok(format!("text{}", i)))) {
            Ok(TaskResult::ReadToString(Ok(_), k)) => order.push(k),
            _ => panic!("expected a read result"),
        }
    }
    assert_eq!(order, vec![0, 10, 1, 11, 2, 12, 3, 13, 4, 14]);
}

#[test]
fn close_is_last_and_later_tasks_are_refused() {
    let mut w: Worker<u32, u8> = Worker::new();
    assert!(matches!(w.accept(Task::Println("before".to_string())), Ok(Job::Print(_))));
    assert!(matches!(w.accept(Task::Exit), Ok(Job::Publish(TaskResult::Exit))));
    assert!(w.is_stopped());
    assert!(!w.is_ready());
    assert!(matches!(w.accept(Task::Exit), Err(Task::Exit)));
    assert!(matches!(w.accept(Task::Open("late".to_string(), 5)), Err(Task::Open(_, 5))));
    assert_eq!(w.tasks_seen(), 2);
}

#[test]
fn busy_worker_hands_task_back() {
    let mut w: Worker<u32, u8> = Worker::new();
    assert!(w.accept(Task::Open("a".to_string(), 1)).is_ok());
    assert!(!w.is_ready());
    assert!(matches!(w.accept(Task::Println("x".to_string())), Err(Task::Println(_))));
}

#[test]
fn mismatched_outcome_is_handed_back() {
    let mut w: Worker<u32, u8> = Worker::new();
    assert!(matches!(w.finish(Outcome::Opened(Ok(1))), Err(Outcome::Opened(Ok(1)))));
    assert!(w.accept(Task::Open("a".to_string(), 1)).is_ok());
    assert!(matches!(w.finish(Outcome::Read(Ok("x".to_string()))), Err(Outcome::Read(_))));
    assert!(matches!(w.finish(Outcome::Opened(Ok(2))), Ok(TaskResult::Open(Ok(2), 1))));
}

#[test]
fn reserved_token_is_refused() {
    let r: Result<Reactor<u32, u32>, ConfigError> = Reactor::new(3, &vec![1, 3, 5]);
    assert!(matches!(r, Err(ConfigError::TokenReserved)));
    let r: Result<Reactor<u32, u32>, ConfigError> = Reactor::new(4, &vec![]);
    match r {
        Ok(r) => {
            assert_eq!(r.token(), 4);
            assert_eq!(r.phase(), Phase::Polling);
        }
        Err(_) => panic!("token refused"),
    }
}

#[test]
fn one_edge_drains_two_results() {
    let mut r = reactor();
    r.on_poll();
    assert_eq!(r.on_event(FS_TOKEN), Wake::Drain);
    assert_eq!(r.phase(), Phase::Draining);
    let mut invoked = Vec::new();
    for res in vec![TaskResult::Open(Ok(1), 10), TaskResult::ReadToString(Ok("a".to_string()), 11)] {
        match r.on_received(Some(res)) {
            Step::Invoke(TaskResult::Open(_, k)) => invoked.push(k),
            Step::Invoke(TaskResult::ReadToString(_, k)) => invoked.push(k),
            _ => panic!("expected an invocation"),
        }
    }
    assert!(matches!(r.on_received(None), Step::Rearm));
    assert_eq!(r.phase(), Phase::Polling);
    assert_eq!(invoked, vec![10, 11]);
    assert_eq!(r.counts(), (1, 1, 1, 2));
}

#[test]
fn empty_drain_still_rearms() {
    let mut r = reactor();
    assert_eq!(r.on_event(FS_TOKEN), Wake::Drain);
    assert!(matches!(r.on_received(None), Step::Rearm));
    assert_eq!(r.phase(), Phase::Polling);
}

#[test]
fn foreign_token_is_ignored() {
    let mut r = reactor();
    assert_eq!(r.on_event(FS_TOKEN + 1), Wake::Ignore);
    assert_eq!(r.phase(), Phase::Polling);
    assert_eq!(r.counts(), (0, 1, 0, 0));
    assert!(matches!(r.on_received(Some(TaskResult::Open(Ok(1), 2))), Step::Refused(Some(_))));
}

#[test]
fn shutdown_ack_stops_the_reactor() {
    let mut r = reactor();
    assert_eq!(r.on_event(FS_TOKEN), Wake::Drain);
    assert!(matches!(r.on_received(Some(TaskResult::Open(Ok(1), 2))), Step::Invoke(_)));
    assert!(matches!(r.on_received(Some(TaskResult::Exit)), Step::Stop));
    assert_eq!(r.phase(), Phase::Stopped);
    assert_eq!(r.on_event(FS_TOKEN), Wake::Ignore);
    assert!(matches!(r.on_received(None), Step::Refused(None)));
}

#[test]
fn handle_queues_tasks_in_order() {
    let (mut fs, rx) = Fs::<u32, u32>::new();
    let mut other = fs.clone();
    assert_eq!(fs.open("f.txt", 1), Ok(()));
    assert_eq!(other.read_to_string(7, 2), Ok(()));
    assert_eq!(fs.println("hi".to_string()), Ok(()));
    assert_eq!(fs.close(), Ok(()));
    assert!(matches!(rx.try_recv(), Ok(Task::Open(p, 1)) if p == "f.txt"));
    assert!(matches!(rx.try_recv(), Ok(Task::ReadToString(7, 2))));
    assert!(matches!(rx.try_recv(), Ok(Task::Println(s)) if s == "hi"));
    assert!(matches!(rx.try_recv(), Ok(Task::Exit)));
    assert!(rx.try_recv().is_err());
}

#[test]
fn close_twice_reports_queue_closed() {
    let (mut fs, rx) = Fs::<u32, u32>::new();
    assert_eq!(fs.close(), Ok(()));
    assert!(matches!(rx.recv(), Ok(Task::Exit)));
    drop(rx);
    assert_eq!(fs.close(), Err(SubmitError::QueueClosed));
    assert_eq!(fs.close(), Err(SubmitError::QueueClosed));
    assert_eq!(fs.open("f.txt", 3), Err(SubmitError::QueueClosed));
}

#[test]
fn submit_outcome_maps_a_failed_send() {
    assert_eq!(fs_mio::handle::submit_outcome::<u32, u32>(Ok(())), Ok(()));
    assert_eq!(fs_mio::handle::submit_outcome::<u32, u32>(Err(Task::Exit)), Err(SubmitError::QueueClosed));
}

#[test]
fn task_builders_carry_their_arguments() {
    assert!(matches!(open_task::<u32, u8>("a.txt", 3), Task::Open(p, 3) if p == "a.txt"));
    assert!(matches!(read_task::<u32, u8>(9, 4), Task::ReadToString(9, 4)));
    assert!(matches!(println_task::<u32, u8>("hi".to_string()), Task::Println(s) if s == "hi"));
    assert!(matches!(exit_task::<u32, u8>(), Task::Exit));
}
