use kafka_pump::dispatch::DispatchState;
use kafka_pump::dispatch::Job;
use kafka_pump::dispatch::SendOutcome;
use kafka_pump::dispatch::start_job;
use kafka_pump::files::FileError;

fn job(total: usize) -> Job {
    Job::new(
        b"payload".to_vec(),
        Some("k".to_string()),
        "events".to_string(),
        Some(total),
    )
}

#[test]
fn job_key_defaults_to_test() {
    let j = Job::new(Vec::new(), None, "t".to_string(), Some(3));
    assert_eq!(j.key, "test");
    let j2 = Job::new(Vec::new(), Some("mine".to_string()), "t".to_string(), Some(3));
    assert_eq!(j2.key, "mine");
}

#[test]
fn job_iterations_default_to_one() {
    let j = Job::new(Vec::new(), None, "t".to_string(), None);
    assert_eq!(j.total, 1);
}

#[test]
fn constant_latency_run_bounded_by_two() {
    // capacity 2, total 5, every send takes the same time; every attempt
    // produces one progress line and the final ETA is zero.
    let t: u64 = 1000;
    let mut st = DispatchState::new(job(5), 2);
    let mut lines: Vec<String> = Vec::new();
    let mut pending: Vec<usize> = Vec::new();
    while !st.is_done() {
        while let Some(i) = st.begin_attempt() {
            assert!(st.limiter.in_flight <= st.limiter.capacity);
            pending.push(i);
        }
        let i = pending.remove(0);
        let line = st.complete_attempt(i, t, &SendOutcome::Sent(format!("meta{}", i)));
        lines.push(line);
    }
    assert_eq!(lines.len(), 5);
    assert_eq!(lines[0], "1/5 [ETA: 4000ns] - Message sent: meta1");
    assert_eq!(lines[1], "2/5 [ETA: 3000ns] - Message sent: meta2");
    assert_eq!(lines[2], "3/5 [ETA: 2000ns] - Message sent: meta3");
    assert_eq!(lines[3], "4/5 [ETA: 1000ns] - Message sent: meta4");
    assert_eq!(lines[4], "5/5 [ETA: 0ns] - Message sent: meta5");
    assert_eq!(st.stats.samples, vec![t; 5]);
    assert_eq!(st.stats.total_nanos / 5, t as u128);
}

#[test]
fn one_failure_does_not_stop_the_job() {
    // total 3, the send of attempt 2 fails: three durations are still
    // recorded, the failure is one logged line, and the summary reports
    // all three attempts.
    let mut st = DispatchState::new(job(3), 10);
    let mut lines: Vec<String> = Vec::new();
    for i in 1..=3usize {
        let got = st.begin_attempt();
        assert_eq!(got, Some(i));
        let outcome = if i == 2 {
            SendOutcome::Failed("broker said no".to_string())
        } else {
            SendOutcome::Sent("ok".to_string())
        };
        lines.push(st.complete_attempt(i, 100, &outcome));
    }
    assert!(st.is_done());
    assert_eq!(st.stats.samples.len(), 3);
    assert_eq!(lines[1], "2/3 Failed to send message: broker said no");
    assert!(lines[0].starts_with("1/3 [ETA: "));
    assert!(lines[2].starts_with("3/3 [ETA: 0ns]"));
    assert_eq!(st.summary(5000), "Sent 3/3 messages in 5000ns");
}

#[test]
fn empty_job_is_done_at_once() {
    let mut st = DispatchState::new(job(0), 10);
    assert!(st.is_done());
    assert_eq!(st.begin_attempt(), None);
    assert_eq!(st.stats.samples.len(), 0);
    assert_eq!(st.summary(0), "Sent 0/0 messages in 0ns");
}

#[test]
fn unreadable_payload_aborts_before_any_attempt() {
    let r = start_job(
        Err(FileError::NotFound),
        None,
        "events".to_string(),
        Some(4),
        10,
    );
    match r {
        Err(FileError::NotFound) => {}
        _ => panic!("a failed payload read must abort the job with its error"),
    }
}

#[test]
fn readable_payload_starts_an_idle_job() {
    let r = start_job(
        Ok(b"hello".to_vec()),
        None,
        "events".to_string(),
        None,
        10,
    );
    let st = r.expect("a read payload must start the job");
    assert_eq!(st.job.payload, b"hello".to_vec());
    assert_eq!(st.job.key, "test");
    assert_eq!(st.job.total, 1);
    assert_eq!(st.launched, 0);
    assert_eq!(st.completed, 0);
    assert_eq!(st.stats.samples.len(), 0);
}

#[test]
fn every_attempt_is_recorded_exactly_once() {
    // N begun attempts, N completions, N samples — success or failure alike.
    for n in [0usize, 1, 2, 7, 25] {
        let mut st = DispatchState::new(job(n), 3);
        let mut begun = 0;
        let mut pending: Vec<usize> = Vec::new();
        while !st.is_done() {
            while let Some(i) = st.begin_attempt() {
                begun += 1;
                pending.push(i);
            }
            let i = pending.remove(0);
            let outcome = if i % 2 == 0 {
                SendOutcome::Failed("x".to_string())
            } else {
                SendOutcome::Sent("y".to_string())
            };
            st.complete_attempt(i, i as u64, &outcome);
        }
        assert_eq!(begun, n);
        assert_eq!(st.stats.samples.len(), n);
        assert_eq!(st.limiter.in_flight, 0);
    }
}
