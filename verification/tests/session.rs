use glpk_api::models::{ApiSolution, Status};
use glpk_api::solvers::highs_session::{
    HighsCommand, HighsEnding, HighsEvent, HighsOutcome, HighsPhase, HighsSession,
};

fn point(value: i32) -> HighsEvent {
    HighsEvent::Solution { solution: vec![("x".to_string(), value)], objective: value }
}

/// Feeds the reports to a fresh session and gives the session and the
/// commands it answered with, the first one included.
fn drive(objectives: usize, events: Vec<HighsEvent>) -> (HighsSession, Vec<HighsCommand>) {
    let (mut session, first) = HighsSession::new(objectives);
    let mut commands = vec![first];
    for event in events {
        let (next, command) = session.advance(event);
        session = next;
        commands.push(command);
    }
    (session, commands)
}

#[test]
fn a_session_begins_by_creating_the_instance() {
    let (session, command) = HighsSession::new(2);
    assert_eq!(command, HighsCommand::Create);
    assert_eq!(session.phase(), HighsPhase::Start);
    assert_eq!(session.objectives(), 2);
    assert_eq!(session.answered_count(), 0);
    assert_eq!(session.ending(), HighsEnding::Answers);
}

#[test]
fn a_full_run_over_two_objectives() {
    let (session, commands) = drive(
        2,
        vec![
            HighsEvent::Created,
            HighsEvent::Loaded,
            HighsEvent::CostsSet,
            HighsEvent::RunReturned(0),
            HighsEvent::ModelStatus(7),
            point(3),
            HighsEvent::CostsSet,
            HighsEvent::RunReturned(0),
            HighsEvent::ModelStatus(8),
            point(0),
            HighsEvent::Destroyed,
        ],
    );
    assert_eq!(
        commands,
        vec![
            HighsCommand::Create,
            HighsCommand::Load,
            HighsCommand::SetCosts(0),
            HighsCommand::Run,
            HighsCommand::ReadModelStatus,
            HighsCommand::ReadSolution,
            HighsCommand::SetCosts(1),
            HighsCommand::Run,
            HighsCommand::ReadModelStatus,
            HighsCommand::ReadSolution,
            HighsCommand::Destroy,
            HighsCommand::Finish,
        ]
    );
    assert_eq!(session.phase(), HighsPhase::Done);
    match session.finish() {
        HighsOutcome::Solutions(answers) => {
            assert_eq!(answers.len(), 2);
            assert_eq!(
                answers[0],
                ApiSolution {
                    status: Status::Optimal,
                    objective: 3,
                    solution: vec![("x".to_string(), 3)],
                    error: None
                }
            );
            assert_eq!(answers[1].status, Status::Infeasible);
        }
        other => panic!("unexpected outcome {:?}", other),
    }
}

#[test]
fn a_failed_run_does_not_end_the_batch() {
    let (session, commands) = drive(
        2,
        vec![
            HighsEvent::Created,
            HighsEvent::Loaded,
            HighsEvent::CostsSet,
            HighsEvent::RunReturned(-1),
            HighsEvent::CostsSet,
            HighsEvent::RunReturned(2),
            HighsEvent::Destroyed,
        ],
    );
    assert_eq!(commands[4], HighsCommand::SetCosts(1));
    assert_eq!(commands[6], HighsCommand::Destroy);
    assert_eq!(commands[7], HighsCommand::Finish);
    assert_eq!(session.answered_count(), 2);
    match session.finish() {
        HighsOutcome::Solutions(answers) => {
            assert_eq!(answers.len(), 2);
            assert_eq!(answers[0].status, Status::Undefined);
            assert_eq!(answers[0].error, Some("HiGHS solve failed with status -1".to_string()));
            assert_eq!(answers[1].error, Some("HiGHS solve failed with status 2".to_string()));
        }
        other => panic!("unexpected outcome {:?}", other),
    }
}

#[test]
fn an_instance_that_cannot_be_created_ends_the_request() {
    let (session, commands) = drive(3, vec![HighsEvent::CreateFailed]);
    assert_eq!(commands, vec![HighsCommand::Create, HighsCommand::Finish]);
    assert_eq!(session.ending(), HighsEnding::NoInstance);
    match session.finish() {
        HighsOutcome::Error(error) => {
            assert_eq!(error.details, "Failed to create HiGHS instance")
        }
        other => panic!("unexpected outcome {:?}", other),
    }
}

#[test]
fn a_request_without_objectives_still_releases_the_instance() {
    let (session, commands) =
        drive(0, vec![HighsEvent::Created, HighsEvent::Loaded, HighsEvent::Destroyed]);
    assert_eq!(
        commands,
        vec![
            HighsCommand::Create,
            HighsCommand::Load,
            HighsCommand::Destroy,
            HighsCommand::Finish
        ]
    );
    assert_eq!(session.finish(), HighsOutcome::Solutions(vec![]));
}

#[test]
fn a_model_status_outside_the_vocabulary_releases_the_instance_and_ends_the_request() {
    let (session, commands) = drive(
        2,
        vec![
            HighsEvent::Created,
            HighsEvent::Loaded,
            HighsEvent::CostsSet,
            HighsEvent::RunReturned(0),
            HighsEvent::ModelStatus(7),
            point(1),
            HighsEvent::CostsSet,
            HighsEvent::RunReturned(0),
            HighsEvent::ModelStatus(99),
            HighsEvent::Destroyed,
        ],
    );
    assert_eq!(commands[9], HighsCommand::Destroy);
    assert_eq!(commands[10], HighsCommand::Finish);
    assert_eq!(session.ending(), HighsEnding::UnknownStatus(99));
    match session.finish() {
        HighsOutcome::Error(error) => {
            assert_eq!(error.details, "HiGHS returned the unrecognized model status 99")
        }
        other => panic!("unexpected outcome {:?}", other),
    }
}

#[test]
fn an_unexpected_report_releases_the_instance_and_ends_in_a_fault() {
    let (session, commands) = drive(
        1,
        vec![
            HighsEvent::Created,
            HighsEvent::Loaded,
            HighsEvent::ModelStatus(7),
            HighsEvent::Destroyed,
        ],
    );
    assert_eq!(commands[3], HighsCommand::Destroy);
    assert_eq!(commands[4], HighsCommand::Finish);
    assert_eq!(session.ending(), HighsEnding::Fault);
    assert_eq!(session.finish(), HighsOutcome::Fault);
}

#[test]
fn an_unexpected_report_before_creation_ends_without_a_release() {
    let (session, commands) = drive(1, vec![HighsEvent::Loaded]);
    assert_eq!(commands, vec![HighsCommand::Create, HighsCommand::Finish]);
    assert_eq!(session.phase(), HighsPhase::Done);
    assert_eq!(session.finish(), HighsOutcome::Fault);
}

#[test]
fn the_release_is_asked_for_once_only() {
    let (session, commands) = drive(
        1,
        vec![
            HighsEvent::Created,
            HighsEvent::Loaded,
            HighsEvent::CostsSet,
            HighsEvent::RunReturned(0),
            HighsEvent::ModelStatus(7),
            point(1),
            HighsEvent::Destroyed,
            HighsEvent::Destroyed,
            HighsEvent::Created,
            HighsEvent::Loaded,
        ],
    );
    let destroys = commands.iter().filter(|c| **c == HighsCommand::Destroy).count();
    let creates = commands.iter().filter(|c| **c == HighsCommand::Create).count();
    assert_eq!(destroys, 1);
    assert_eq!(creates, 1);
    assert_eq!(session.phase(), HighsPhase::Done);
}

#[test]
fn a_session_that_has_not_ended_gives_a_fault() {
    let (session, _) = drive(1, vec![HighsEvent::Created]);
    assert_eq!(session.phase(), HighsPhase::Loading);
    assert_eq!(session.finish(), HighsOutcome::Fault);
}
