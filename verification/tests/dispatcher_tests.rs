use whisper_server::channel::{resolve_reply, ResultChannel};
use whisper_server::dispatcher::{Dispatcher, JobOutcome, WorkerError};
use whisper_server::worker::{worker_next_state, WorkerState};

fn audio(tag: i16) -> Vec<i16> {
    vec![tag, tag, tag]
}

// Drives one worker turn: take the oldest job, run the (simulated) engine,
// deliver the outcome into the matching channel.
fn worker_turn(
    d: &mut Dispatcher,
    channels: &mut [ResultChannel],
    engine_result: Result<String, String>,
) -> u64 {
    let job = d.take_next().expect("queue should not be empty");
    let out = d.complete(engine_result);
    channels[job.id as usize].send(out);
    job.id
}

#[test]
fn excess_submissions_get_queue_full() {
    let capacity = 2usize;
    let mut d = Dispatcher::new(capacity);
    let mut results = Vec::new();
    for i in 0..4i16 {
        results.push(d.submit(audio(i)));
    }
    assert_eq!(results[0], Ok(0));
    assert_eq!(results[1], Ok(1));
    assert_eq!(results[2], Err(WorkerError::QueueFull));
    assert_eq!(results[3], Err(WorkerError::QueueFull));

    // every admitted job still resolves
    let mut channels = vec![ResultChannel::new(), ResultChannel::new()];
    worker_turn(&mut d, &mut channels, Ok("first".to_string()));
    worker_turn(&mut d, &mut channels, Ok("second".to_string()));
    let expected = ["first", "second"];
    for (i, ch) in channels.into_iter().enumerate() {
        assert_eq!(resolve_reply(ch.recv()), Ok(expected[i].to_string()));
    }
    assert_eq!(d.pending_len(), 0);
}

#[test]
fn jobs_resolve_in_admission_order() {
    let mut d = Dispatcher::new(3);
    for i in 0..3i16 {
        d.submit(audio(i)).unwrap();
    }
    let mut order = Vec::new();
    let mut channels = vec![
        ResultChannel::new(),
        ResultChannel::new(),
        ResultChannel::new(),
    ];
    for _ in 0..3 {
        let job = d.take_next().unwrap();
        // the payload travels untouched with its job
        assert_eq!(job.audio, audio(job.id as i16));
        let out = d.complete(Ok(format!("t{}", job.id)));
        channels[job.id as usize].send(out);
        order.push(job.id);
    }
    assert_eq!(order, vec![0, 1, 2]);
    for (i, ch) in channels.into_iter().enumerate() {
        assert_eq!(resolve_reply(ch.recv()), Ok(format!("t{}", i)));
    }
}

#[test]
fn scenario_capacity_one_rejects_second_submission() {
    let mut d = Dispatcher::new(1);
    let first = d.submit(audio(1));
    let second = d.submit(audio(2));
    assert_eq!(first, Ok(0));
    assert_eq!(second, Err(WorkerError::QueueFull));

    let mut channels = vec![ResultChannel::new()];
    worker_turn(&mut d, &mut channels, Ok("only".to_string()));
    let ch = channels.pop().unwrap();
    assert_eq!(resolve_reply(ch.recv()), Ok("only".to_string()));
}

#[test]
fn scenario_engine_failure_is_isolated() {
    let mut d = Dispatcher::new(4);
    // J2 is submitted right after J1, before the worker runs either.
    assert_eq!(d.submit(audio(1)), Ok(0));
    assert_eq!(d.submit(audio(2)), Ok(1));

    let mut channels = vec![ResultChannel::new(), ResultChannel::new()];
    worker_turn(&mut d, &mut channels, Err("engine exploded".to_string()));
    worker_turn(&mut d, &mut channels, Ok("hello".to_string()));

    let ch2 = channels.pop().unwrap();
    let ch1 = channels.pop().unwrap();
    assert_eq!(
        resolve_reply(ch1.recv()),
        Err(WorkerError::Transcription("engine exploded".to_string()))
    );
    assert_eq!(resolve_reply(ch2.recv()), Ok("hello".to_string()));
}

#[test]
fn submission_after_failure_is_admitted() {
    let mut d = Dispatcher::new(1);
    assert_eq!(d.submit(audio(1)), Ok(0));
    let mut channels = vec![ResultChannel::new(), ResultChannel::new()];
    worker_turn(&mut d, &mut channels, Err("bad".to_string()));
    // submitted immediately after the failing job: still admitted and served
    assert_eq!(d.submit(audio(2)), Ok(1));
    worker_turn(&mut d, &mut channels, Ok("fine".to_string()));
    let ch2 = channels.pop().unwrap();
    assert_eq!(resolve_reply(ch2.recv()), Ok("fine".to_string()));
}

#[test]
fn abandoned_job_does_not_block_others() {
    let mut d = Dispatcher::new(2);
    assert_eq!(d.submit(audio(1)), Ok(0));
    assert_eq!(d.submit(audio(2)), Ok(1));

    let mut channels = vec![ResultChannel::new(), ResultChannel::new()];
    // the first submitter walks away before its result arrives
    channels[0].abandon();

    worker_turn(&mut d, &mut channels, Ok("unread".to_string()));
    worker_turn(&mut d, &mut channels, Ok("read".to_string()));

    // the abandoned channel took the write without complaint ...
    assert!(channels[0].sent);
    // ... and the other job resolved normally
    let ch2 = channels.pop().unwrap();
    assert_eq!(resolve_reply(ch2.recv()), Ok("read".to_string()));
}

#[test]
fn closed_dispatcher_reports_worker_gone() {
    let mut d = Dispatcher::new(2);
    d.close();
    assert!(d.is_closed());
    assert_eq!(d.submit(audio(1)), Err(WorkerError::WorkerGone));
}

#[test]
fn vanished_worker_resolves_to_worker_gone() {
    let mut ch = ResultChannel::new();
    ch.drop_sender();
    assert_eq!(resolve_reply(ch.recv()), Err(WorkerError::WorkerGone));
    assert_eq!(resolve_reply(None), Err(WorkerError::WorkerGone));
}

#[test]
fn take_next_on_empty_queue_yields_none() {
    let mut d = Dispatcher::new(1);
    assert!(d.take_next().is_none());
    assert_eq!(d.pending_len(), 0);
    assert_eq!(d.capacity(), 1);
}

#[test]
fn engine_verdict_becomes_outcome() {
    let mut d = Dispatcher::new(1);
    d.submit(audio(1)).unwrap();
    d.take_next().unwrap();
    let out = d.complete(Err("boom".to_string()));
    assert_eq!(out, JobOutcome::Failed("boom".to_string()));

    d.submit(audio(2)).unwrap();
    d.take_next().unwrap();
    let out = d.complete(Ok("text".to_string()));
    assert_eq!(out, JobOutcome::Transcript("text".to_string()));
}

#[test]
fn worker_stops_only_when_drained() {
    assert_eq!(
        worker_next_state(WorkerState::Running, true),
        WorkerState::Running
    );
    assert_eq!(
        worker_next_state(WorkerState::Running, false),
        WorkerState::Stopped
    );
    assert_eq!(
        worker_next_state(WorkerState::Stopped, true),
        WorkerState::Stopped
    );
    assert_eq!(
        worker_next_state(WorkerState::Stopped, false),
        WorkerState::Stopped
    );
}

#[test]
fn worker_error_status_codes() {
    assert_eq!(WorkerError::QueueFull.status_code(), 503);
    assert_eq!(WorkerError::WorkerGone.status_code(), 503);
    assert_eq!(
        WorkerError::Transcription("x".to_string()).status_code(),
        500
    );
}

#[test]
fn worker_error_messages() {
    assert_eq!(
        WorkerError::QueueFull.message(),
        "transcription queue is full"
    );
    assert_eq!(
        WorkerError::WorkerGone.message(),
        "transcription worker unavailable"
    );
    assert_eq!(
        WorkerError::Transcription("engine exploded".to_string()).message(),
        "transcription failed: engine exploded"
    );
}
