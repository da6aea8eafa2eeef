use parallel_meil::config::{ConfigError, Input};
use parallel_meil::connection::ConnectionError;
use parallel_meil::fatal::{exit_code, FatalError};
use parallel_meil::job::IngestionJob;
use parallel_meil::model::{Action, Event, Phase};
use parallel_meil::outcome::{outcome_of, Outcome, Response, SubmissionError};
use parallel_meil::record::{ArxivEntry, Version};
use parallel_meil::scheduler::IngestionScheduler;

fn entry(id: u32) -> ArxivEntry {
    ArxivEntry {
        abstract_text: format!("abstract {}", id),
        authors: String::from("A. Author"),
        authors_parsed: vec![vec![String::from("Author"), String::from("A.")]],
        categories: String::from("cs.DS"),
        comments: None,
        doi: None,
        id,
        journal_ref: None,
        license: None,
        report_no: None,
        submitter: String::from("submitter"),
        title: format!("title {}", id),
        update_date: String::from("2020-01-01"),
        versions: vec![Version {
            created: String::from("2020-01-01"),
            version: String::from("v1"),
        }],
    }
}

fn input(threads: usize) -> Input {
    Input {
        path: String::from("data.json"),
        address: String::from("http://localhost:7700"),
        api: String::from("key"),
        index: String::from("items"),
        threads,
    }
}

fn scheduler_for(ids: &[u32], threads: usize) -> IngestionScheduler {
    let records: Vec<ArxivEntry> = ids.iter().map(|id| entry(*id)).collect();
    IngestionScheduler::new(IngestionJob::new(input(threads), records).unwrap())
}

/// Runs a job to its end the way a caller's loop does. Tasks end in the
/// order in which they were launched; `respond` is the remote service.
/// Returns the largest number of tasks that were in flight at once.
fn drive(scheduler: &mut IngestionScheduler, respond: &dyn Fn(u32) -> Response) -> usize {
    let mut running: Vec<u32> = Vec::new();
    let mut peak = 0;
    let mut action = scheduler.step(Event::Connected);
    loop {
        match action {
            Action::Launch { position, id } => {
                assert_eq!(scheduler.record(position).unwrap().id, id);
                running.push(id);
                peak = peak.max(running.len());
                assert_eq!(scheduler.in_flight(), running.len());
                action = scheduler.step(Event::Launched);
            }
            Action::Await => {
                assert!(!running.is_empty());
                let id = running.remove(0);
                action = scheduler.step(Event::Finished(outcome_of(id, respond(id))));
            }
            Action::Finish => break,
            Action::Abort(_) | Action::Rejected => panic!("unexpected {:?}", action),
        }
    }
    assert!(running.is_empty());
    peak
}

#[test]
fn three_records_limit_two_one_rejected() {
    let mut scheduler = scheduler_for(&[1, 2, 3], 2);
    let peak = drive(&mut scheduler, &|id| {
        if id == 2 {
            Response::Refused
        } else {
            Response::Accepted { task_uid: id }
        }
    });
    assert!(peak <= 2);
    assert_eq!(scheduler.phase(), Phase::Completed);
    let report = scheduler.report();
    assert_eq!(report.total(), 3);
    assert_eq!(report.success(), 2);
    assert_eq!(report.failed(), 1);
    assert_eq!(
        report.failures(),
        vec![Outcome::Failure { id: 2, cause: SubmissionError::Rejected }]
    );
    assert_eq!(exit_code(scheduler.fatal()), 0);
}

#[test]
fn hundred_records_limit_eight_all_accepted() {
    let ids: Vec<u32> = (0..100).collect();
    let mut scheduler = scheduler_for(&ids, 8);
    let peak = drive(&mut scheduler, &|id| Response::Accepted { task_uid: id });
    assert_eq!(peak, 8);
    let report = scheduler.report();
    assert_eq!(report.success(), 100);
    assert_eq!(report.failed(), 0);
    assert_eq!(report.total(), 100);
    assert!(report.failures().is_empty());
}

#[test]
fn every_record_has_one_outcome() {
    for n in [0u32, 1, 2, 5, 17] {
        for limit in [1usize, 2, 3, 16, 100] {
            let ids: Vec<u32> = (0..n).collect();
            let mut scheduler = scheduler_for(&ids, limit);
            let peak = drive(&mut scheduler, &|id| {
                if id % 3 == 0 {
                    Response::Transport
                } else {
                    Response::Accepted { task_uid: 0 }
                }
            });
            assert_eq!(peak, limit.min(n as usize));
            let report = scheduler.report();
            assert_eq!(report.total(), n as usize);
            assert_eq!(report.success() + report.failed(), n as usize);
            let mut seen: Vec<u32> = report.outcomes().iter().map(|o| o.id()).collect();
            seen.sort();
            assert_eq!(seen, ids);
            assert_eq!(scheduler.dispatched(), n as usize);
            assert_eq!(scheduler.in_flight(), 0);
            assert!(scheduler.is_completed());
        }
    }
}

#[test]
fn empty_job_finishes_at_once() {
    let mut scheduler = scheduler_for(&[], 4);
    assert_eq!(scheduler.phase(), Phase::Idle);
    assert_eq!(scheduler.step(Event::Connected), Action::Finish);
    assert_eq!(scheduler.phase(), Phase::Completed);
    assert_eq!(scheduler.report().total(), 0);
    assert_eq!(scheduler.fatal(), None);
}

#[test]
fn duplicate_ids_each_get_an_outcome() {
    let mut scheduler = scheduler_for(&[7, 7, 9, 7], 3);
    assert_eq!(scheduler.step(Event::Connected), Action::Launch { position: 0, id: 7 });
    assert_eq!(scheduler.step(Event::Launched), Action::Launch { position: 1, id: 7 });
    assert_eq!(scheduler.step(Event::Launched), Action::Launch { position: 2, id: 9 });
    assert_eq!(scheduler.step(Event::Launched), Action::Await);
    assert_eq!(scheduler.in_flight(), 3);
    let failed = Outcome::Failure { id: 7, cause: SubmissionError::Network };
    assert_eq!(scheduler.step(Event::Finished(failed)), Action::Launch { position: 3, id: 7 });
    assert_eq!(scheduler.phase(), Phase::Draining);
    assert_eq!(scheduler.step(Event::Launched), Action::Await);
    assert_eq!(scheduler.step(Event::Finished(Outcome::Success { id: 7 })), Action::Await);
    assert_eq!(scheduler.step(Event::Finished(Outcome::Success { id: 7 })), Action::Await);
    // All three tasks of identifier 7 have ended: a fourth end is refused.
    assert_eq!(scheduler.step(Event::Finished(Outcome::Success { id: 7 })), Action::Rejected);
    assert_eq!(scheduler.in_flight(), 1);
    assert_eq!(scheduler.step(Event::Finished(Outcome::Success { id: 9 })), Action::Finish);
    let report = scheduler.into_report();
    assert_eq!(report.total(), 4);
    assert_eq!(report.success(), 3);
    assert_eq!(report.failed(), 1);
    assert_eq!(report.outcomes().iter().filter(|o| o.id() == 7).count(), 3);
    assert_eq!(report.failures(), vec![failed]);
}

#[test]
fn outcomes_arrive_in_any_order() {
    let mut scheduler = scheduler_for(&[1, 2, 3], 3);
    assert_eq!(scheduler.step(Event::Connected), Action::Launch { position: 0, id: 1 });
    assert_eq!(scheduler.step(Event::Launched), Action::Launch { position: 1, id: 2 });
    assert_eq!(scheduler.step(Event::Launched), Action::Launch { position: 2, id: 3 });
    assert_eq!(scheduler.step(Event::Finished(Outcome::Success { id: 3 })), Action::Await);
    assert_eq!(scheduler.step(Event::Finished(Outcome::Success { id: 1 })), Action::Await);
    assert_eq!(scheduler.step(Event::Finished(Outcome::Success { id: 2 })), Action::Finish);
    let arrived: Vec<u32> = scheduler.report().outcomes().iter().map(|o| o.id()).collect();
    assert_eq!(arrived, vec![3, 1, 2]);
}

#[test]
fn saturated_pool_waits_for_a_slot() {
    let mut scheduler = scheduler_for(&[1, 2, 3], 1);
    assert_eq!(scheduler.step(Event::Connected), Action::Launch { position: 0, id: 1 });
    assert_eq!(scheduler.step(Event::Launched), Action::Await);
    assert_eq!(scheduler.step(Event::Launched), Action::Await);
    assert_eq!(scheduler.in_flight(), 1);
    assert_eq!(scheduler.dispatched(), 1);
    assert_eq!(scheduler.phase(), Phase::Dispatching);
    assert_eq!(
        scheduler.step(Event::Finished(Outcome::Success { id: 1 })),
        Action::Launch { position: 1, id: 2 }
    );
    assert_eq!(scheduler.in_flight(), 1);
}

#[test]
fn failed_connection_aborts_without_dispatch() {
    let mut scheduler = scheduler_for(&[1, 2, 3], 2);
    let cause = ConnectionError::Unreachable;
    assert_eq!(scheduler.step(Event::ConnectionFailed(cause)), Action::Abort(cause));
    assert_eq!(scheduler.phase(), Phase::Completed);
    assert_eq!(scheduler.dispatched(), 0);
    assert_eq!(scheduler.in_flight(), 0);
    assert_eq!(scheduler.report().total(), 0);
    assert_eq!(scheduler.report().success(), 0);
    assert_eq!(scheduler.fatal(), Some(FatalError::Connection(cause)));
    assert_ne!(exit_code(scheduler.fatal()), 0);
    for event in [
        Event::Connected,
        Event::Launched,
        Event::ConnectionFailed(ConnectionError::MalformedAddress),
        Event::Finished(Outcome::Success { id: 1 }),
    ] {
        assert_eq!(scheduler.step(event), Action::Rejected);
    }
    assert_eq!(scheduler.report().total(), 0);
    assert_eq!(scheduler.fatal(), Some(FatalError::Connection(cause)));
}

#[test]
fn events_out_of_place_are_rejected() {
    let mut scheduler = scheduler_for(&[1, 2], 2);
    assert_eq!(scheduler.step(Event::Launched), Action::Rejected);
    assert_eq!(scheduler.step(Event::Finished(Outcome::Success { id: 1 })), Action::Rejected);
    assert_eq!(scheduler.phase(), Phase::Idle);
    assert_eq!(scheduler.step(Event::Connected), Action::Launch { position: 0, id: 1 });
    assert_eq!(scheduler.step(Event::Connected), Action::Rejected);
    assert_eq!(
        scheduler.step(Event::ConnectionFailed(ConnectionError::Unreachable)),
        Action::Rejected
    );
    // Record 2 has not been handed out yet.
    assert_eq!(scheduler.step(Event::Finished(Outcome::Success { id: 2 })), Action::Rejected);
    assert_eq!(scheduler.in_flight(), 1);
    assert_eq!(scheduler.report().total(), 0);
    assert_eq!(scheduler.fatal(), None);
}

#[test]
fn completed_job_is_final() {
    let mut scheduler = scheduler_for(&[5], 1);
    drive(&mut scheduler, &|_| Response::TimedOut);
    let before = scheduler.report().outcomes().clone();
    assert_eq!(before, vec![Outcome::Failure { id: 5, cause: SubmissionError::Timeout }]);
    for event in [
        Event::Connected,
        Event::Launched,
        Event::ConnectionFailed(ConnectionError::Unreachable),
        Event::Finished(Outcome::Success { id: 5 }),
    ] {
        assert_eq!(scheduler.step(event), Action::Rejected);
        assert_eq!(scheduler.phase(), Phase::Completed);
    }
    assert_eq!(scheduler.report().outcomes(), &before);
    assert_eq!(scheduler.fatal(), None);
    assert_eq!(exit_code(scheduler.fatal()), 0);
}

#[test]
fn job_refuses_a_limit_of_zero() {
    assert_eq!(IngestionJob::new(input(0), vec![entry(1)]).err(), Some(ConfigError::ZeroThreads));
}

#[test]
fn job_keeps_its_input_and_records() {
    let job = IngestionJob::new(input(3), vec![entry(4), entry(2)]).unwrap();
    assert_eq!(job.limit(), 3);
    assert_eq!(job.len(), 2);
    assert_eq!(job.input(), &input(3));
    assert_eq!(job.records(), &vec![entry(4), entry(2)]);
    assert_eq!(job.record(1), Some(&entry(2)));
    assert_eq!(job.record(2), None);
    let scheduler = IngestionScheduler::new(job);
    assert_eq!(scheduler.job().len(), 2);
    assert_eq!(scheduler.record(0), Some(&entry(4)));
    assert_eq!(scheduler.record(2), None);
}
