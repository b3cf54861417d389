//! The life of one native engine instance, as a state machine. The
//! instance itself is held by the driver; this machine decides, from what
//! the driver reports, what the driver is to do next. One instance serves
//! all objectives of a request and is released exactly once, whichever
//! way the request ends.

use vstd::prelude::*;
use crate::models::{ApiSolution, SolutionView};
use crate::solvers::highs_solver::{unknown_status_message, HighsRun, HighsSolver};
use crate::validate::SolveInputError;

verus! {

/// Where a session stands.
#[derive(Clone, Copy, Debug, PartialEq, Eq, Structural)]
pub enum HighsPhase {
    /// No instance exists yet; its creation has been asked for.
    Start,
    /// The instance exists and the model is being loaded into it.
    Loading,
    /// The costs of objective `0` are being written.
    Costing(usize),
    /// The engine is running on objective `0`.
    Running(usize),
    /// The model status after the run on objective `0` is being read.
    ReadingStatus(usize),
    /// The point found for objective `0` is being read; `1` is the model
    /// status, a number of the engine's vocabulary.
    ReadingSolution(usize, i32),
    /// The release of the instance has been asked for.
    Releasing,
    /// Nothing more is to be done.
    Done,
}

impl HighsPhase {
    /// Whether the driver holds an instance that is still to be released.
    pub open spec fn holds_instance(self) -> bool {
        self is Loading || self is Costing || self is Running || self is ReadingStatus
            || self is ReadingSolution
    }
}

/// What the driver is to do next.
#[derive(Clone, Copy, Debug, PartialEq, Eq, Structural)]
pub enum HighsCommand {
    /// Create the instance.
    Create,
    /// Load the model: take the steps of `HighsModel::load_steps`, in
    /// their order.
    Load,
    /// Write the column costs of the given objective.
    SetCosts(usize),
    /// Run the engine.
    Run,
    /// Read the model status.
    ReadModelStatus,
    /// Read the point that the engine found.
    ReadSolution,
    /// Release the instance.
    Destroy,
    /// Stop, and take the outcome.
    Finish,
}

/// What the driver reports back.
#[derive(Debug, PartialEq, Eq)]
pub enum HighsEvent {
    /// The instance could not be created.
    CreateFailed,
    Created,
    Loaded,
    CostsSet,
    /// The run ended with this return code.
    RunReturned(i32),
    ModelStatus(i32),
    /// The point found, by variable, and the objective's value there.
    Solution { solution: Vec<(String, i32)>, objective: i32 },
    Destroyed,
}

/// How a session ended.
#[derive(Debug, PartialEq, Eq)]
pub enum HighsOutcome {
    /// One answer per objective, in order.
    Solutions(Vec<ApiSolution>),
    /// The request failed: no instance could be created, or the engine
    /// reported a model status outside its vocabulary.
    Error(SolveInputError),
    /// The driver reported something that cannot follow what it was asked
    /// to do; there is no answer to give.
    Fault,
}

/// How a session ends, if it ended now.
#[derive(Clone, Copy, Debug, PartialEq, Eq, Structural)]
pub enum HighsEnding {
    /// With the answers gathered.
    Answers,
    /// With the error of an instance that could not be created.
    NoInstance,
    /// With the error of a model status outside the engine's vocabulary;
    /// the number is the status reported.
    UnknownStatus(i32),
    /// With a fault.
    Fault,
}

/// A session of one request. Its numbers always fit together: see
/// `SessionView::consistent`.
#[derive(Debug, PartialEq, Eq)]
pub struct HighsSession {
    phase: HighsPhase,
    objectives: usize,
    answers: Vec<ApiSolution>,
    ending: HighsEnding,
}

/// A session as plain values.
pub struct SessionView {
    pub phase: HighsPhase,
    pub objectives: usize,
    pub answers: Seq<SolutionView>,
    pub ending: HighsEnding,
}

impl View for HighsSession {
    type V = SessionView;

    closed spec fn view(&self) -> SessionView {
        SessionView {
            phase: self.phase,
            objectives: self.objectives,
            answers: Seq::new(self.answers@.len(), |k: int| self.answers@[k]@),
            ending: self.ending,
        }
    }
}

impl SessionView {
    /// The session and the command after objective `k` has been answered
    /// with `answer`: on to the next objective, or to the release of the
    /// instance after the last one.
    pub open spec fn answered(self, k: usize, answer: SolutionView) -> (SessionView, HighsCommand) {
        let answers = self.answers.push(answer);
        if k + 1 < self.objectives {
            (
                SessionView { phase: HighsPhase::Costing((k + 1) as usize), answers, ..self },
                HighsCommand::SetCosts((k + 1) as usize),
            )
        } else {
            (SessionView { phase: HighsPhase::Releasing, answers, ..self }, HighsCommand::Destroy)
        }
    }

    /// The session and the command after a report that cannot follow what
    /// was asked: an instance that is held is released first.
    pub open spec fn faulted(self) -> (SessionView, HighsCommand) {
        if self.phase.holds_instance() {
            (
                SessionView { phase: HighsPhase::Releasing, ending: HighsEnding::Fault, ..self },
                HighsCommand::Destroy,
            )
        } else {
            (
                SessionView { phase: HighsPhase::Done, ending: HighsEnding::Fault, ..self },
                HighsCommand::Finish,
            )
        }
    }

    /// The session and the command that follow the report `event`.
    pub open spec fn after(self, event: HighsEvent) -> (SessionView, HighsCommand) {
        match (self.phase, event) {
            (HighsPhase::Start, HighsEvent::Created) => (
                SessionView { phase: HighsPhase::Loading, ..self },
                HighsCommand::Load,
            ),
            (HighsPhase::Start, HighsEvent::CreateFailed) => (
                SessionView { phase: HighsPhase::Done, ending: HighsEnding::NoInstance, ..self },
                HighsCommand::Finish,
            ),
            (HighsPhase::Loading, HighsEvent::Loaded) => if self.objectives == 0 {
                (SessionView { phase: HighsPhase::Releasing, ..self }, HighsCommand::Destroy)
            } else {
                (SessionView { phase: HighsPhase::Costing(0), ..self }, HighsCommand::SetCosts(0))
            },
            (HighsPhase::Costing(k), HighsEvent::CostsSet) => (
                SessionView { phase: HighsPhase::Running(k), ..self },
                HighsCommand::Run,
            ),
            (HighsPhase::Running(k), HighsEvent::RunReturned(status)) => if status != 0 {
                self.answered(k, HighsRun::Failed(status).answer())
            } else {
                (
                    SessionView { phase: HighsPhase::ReadingStatus(k), ..self },
                    HighsCommand::ReadModelStatus,
                )
            },
            (
                HighsPhase::ReadingStatus(k),
                HighsEvent::ModelStatus(model_status),
            ) => if HighsSolver::spec_convert_status(model_status as int) is Some {
                (
                    SessionView { phase: HighsPhase::ReadingSolution(k, model_status), ..self },
                    HighsCommand::ReadSolution,
                )
            } else {
                (
                    SessionView {
                        phase: HighsPhase::Releasing,
                        ending: HighsEnding::UnknownStatus(model_status),
                        ..self
                    },
                    HighsCommand::Destroy,
                )
            },
            (
                HighsPhase::ReadingSolution(k, model_status),
                HighsEvent::Solution { solution, objective },
            ) => self.answered(k, HighsRun::Solved { model_status, solution, objective }.answer()),
            (HighsPhase::Releasing, _) => (
                SessionView { phase: HighsPhase::Done, ..self },
                HighsCommand::Finish,
            ),
            (HighsPhase::Done, _) => (self, HighsCommand::Finish),
            _ => self.faulted(),
        }
    }

    /// The numbers of a session fit together: the objective in work is
    /// one of the request's and the answers before it are gathered, and a
    /// session that is ending with its answers has one per objective.
    pub open spec fn consistent(self) -> bool {
        match self.phase {
            HighsPhase::Start => self.answers.len() == 0 && self.ending == HighsEnding::Answers,
            HighsPhase::Loading => self.answers.len() == 0 && self.ending == HighsEnding::Answers,
            HighsPhase::Costing(k) => k < self.objectives && self.answers.len() == k
                && self.ending == HighsEnding::Answers,
            HighsPhase::Running(k) => k < self.objectives && self.answers.len() == k
                && self.ending == HighsEnding::Answers,
            HighsPhase::ReadingStatus(k) => k < self.objectives && self.answers.len() == k
                && self.ending == HighsEnding::Answers,
            HighsPhase::ReadingSolution(k, model_status) => k < self.objectives
                && self.answers.len() == k && self.ending == HighsEnding::Answers
                && HighsSolver::spec_convert_status(model_status as int) is Some,
            HighsPhase::Releasing => self.ending == HighsEnding::Answers ==> self.answers.len()
                == self.objectives,
            HighsPhase::Done => self.ending == HighsEnding::Answers ==> self.answers.len()
                == self.objectives,
        }
    }
}

/// The instance is released exactly once, on every way through a session:
/// its release is asked for exactly at the step at which the session stops
/// holding it, a session only comes to hold one by its creation at the
/// start, and a session is never told to stop while it holds one.
pub proof fn lemma_released_exactly_once(session: SessionView, event: HighsEvent)
    ensures
        ({
            let (next, command) = session.after(event);
            &&& command == HighsCommand::Destroy <==> session.phase.holds_instance()
                && !next.phase.holds_instance()
            &&& next.phase.holds_instance() && !session.phase.holds_instance() ==> session.phase
                == HighsPhase::Start && event == HighsEvent::Created
            &&& command == HighsCommand::Finish <==> next.phase == HighsPhase::Done
            &&& command != HighsCommand::Create
        }),
{
}

/// A consistent session stays consistent, so that a session which ends
/// with its answers has exactly one answer per objective, and the answers
/// gathered before a step are the first of those gathered after it.
pub proof fn lemma_one_answer_per_objective(session: SessionView, event: HighsEvent)
    requires
        session.consistent(),
    ensures
        ({
            let (next, command) = session.after(event);
            &&& next.consistent()
            &&& next.objectives == session.objectives
            &&& session.answers.is_prefix_of(next.answers)
            &&& next.answers.len() <= session.answers.len() + 1
        }),
{
    let (next, command) = session.after(event);
    assert(session.answers.is_prefix_of(next.answers)) by {
        if next.answers != session.answers {
            let last = next.answers.last();
            assert(next.answers =~= session.answers.push(last));
        }
    }
}

impl HighsSession {
    #[verifier::type_invariant]
    spec fn fits_together(self) -> bool {
        self@.consistent()
    }

    /// A session for a request with `objectives` objectives; the driver is
    /// to begin by creating the instance.
    pub fn new(objectives: usize) -> (r: (HighsSession, HighsCommand))
        ensures
            r.0@ == (SessionView {
                phase: HighsPhase::Start,
                objectives,
                answers: Seq::empty(),
                ending: HighsEnding::Answers,
            }),
            r.0@.consistent(),
            r.1 == HighsCommand::Create,
    {
        let answers: Vec<ApiSolution> = Vec::new();
        assert(Seq::new(answers@.len(), |k: int| answers@[k]@) =~= Seq::<SolutionView>::empty());
        let session = HighsSession {
            phase: HighsPhase::Start,
            objectives,
            answers,
            ending: HighsEnding::Answers,
        };
        (session, HighsCommand::Create)
    }

    /// Where the session stands.
    pub fn phase(&self) -> (phase: HighsPhase)
        ensures
            phase == self@.phase,
    {
        self.phase
    }

    /// Number of objectives of the request.
    pub fn objectives(&self) -> (objectives: usize)
        ensures
            objectives == self@.objectives,
    {
        self.objectives
    }

    /// Number of answers gathered so far.
    pub fn answered_count(&self) -> (count: usize)
        ensures
            count == self@.answers.len(),
    {
        self.answers.len()
    }

    /// How the session ends, if it ended now.
    pub fn ending(&self) -> (ending: HighsEnding)
        ensures
            ending == self@.ending,
    {
        self.ending
    }

    fn answered(self, k: usize, answer: ApiSolution) -> (r: (HighsSession, HighsCommand))
        requires
            k < self@.objectives,
            self@.answers.len() == k,
            self@.ending == HighsEnding::Answers,
        ensures
            (r.0@, r.1) == self@.answered(k, answer@),
    {
        let objectives = self.objectives;
        let ending = self.ending;
        let mut answers = self.answers;
        let ghost before = Seq::new(answers@.len(), |i: int| answers@[i]@);
        answers.push(answer);
        assert(Seq::new(answers@.len(), |i: int| answers@[i]@) =~= before.push(answer@));
        if k + 1 < objectives {
            (
                HighsSession { phase: HighsPhase::Costing(k + 1), objectives, answers, ending },
                HighsCommand::SetCosts(k + 1),
            )
        } else {
            (
                HighsSession { phase: HighsPhase::Releasing, objectives, answers, ending },
                HighsCommand::Destroy,
            )
        }
    }

    fn faulted(self) -> (r: (HighsSession, HighsCommand))
        ensures
            (r.0@, r.1) == self@.faulted(),
    {
        let objectives = self.objectives;
        let phase = self.phase;
        let answers = self.answers;
        match phase {
            HighsPhase::Loading
            | HighsPhase::Costing(_)
            | HighsPhase::Running(_)
            | HighsPhase::ReadingStatus(_)
            | HighsPhase::ReadingSolution(_, _) => (
                HighsSession {
                    phase: HighsPhase::Releasing,
                    objectives,
                    answers,
                    ending: HighsEnding::Fault,
                },
                HighsCommand::Destroy,
            ),
            _ => (
                HighsSession {
                    phase: HighsPhase::Done,
                    objectives,
                    answers,
                    ending: HighsEnding::Fault,
                },
                HighsCommand::Finish,
            ),
        }
    }

    /// Takes in what the driver reports and gives the session that follows
    /// and what the driver is to do next.
    pub fn advance(self, event: HighsEvent) -> (r: (HighsSession, HighsCommand))
        ensures
            (r.0@, r.1) == self@.after(event),
            self@.consistent(),
            r.0@.consistent(),
    {
        proof {
            use_type_invariant(&self);
            lemma_one_answer_per_objective(self@, event);
        }
        let phase = self.phase;
        match (phase, event) {
            (HighsPhase::Start, HighsEvent::Created) => (
                HighsSession { phase: HighsPhase::Loading, ..self },
                HighsCommand::Load,
            ),
            (HighsPhase::Start, HighsEvent::CreateFailed) => (
                HighsSession { phase: HighsPhase::Done, ending: HighsEnding::NoInstance, ..self },
                HighsCommand::Finish,
            ),
            (HighsPhase::Loading, HighsEvent::Loaded) => {
                if self.objectives == 0 {
                    (HighsSession { phase: HighsPhase::Releasing, ..self }, HighsCommand::Destroy)
                } else {
                    (
                        HighsSession { phase: HighsPhase::Costing(0), ..self },
                        HighsCommand::SetCosts(0),
                    )
                }
            },
            (HighsPhase::Costing(k), HighsEvent::CostsSet) => (
                HighsSession { phase: HighsPhase::Running(k), ..self },
                HighsCommand::Run,
            ),
            (HighsPhase::Running(k), HighsEvent::RunReturned(status)) => {
                if status != 0 {
                    match HighsSolver::solution(HighsRun::Failed(status)) {
                        Ok(answer) => self.answered(k, answer),
                        Err(_) => self.faulted(),
                    }
                } else {
                    (
                        HighsSession { phase: HighsPhase::ReadingStatus(k), ..self },
                        HighsCommand::ReadModelStatus,
                    )
                }
            },
            (HighsPhase::ReadingStatus(k), HighsEvent::ModelStatus(model_status)) => {
                if HighsSolver::convert_status(model_status).is_some() {
                    (
                        HighsSession {
                            phase: HighsPhase::ReadingSolution(k, model_status),
                            ..self
                        },
                        HighsCommand::ReadSolution,
                    )
                } else {
                    (
                        HighsSession {
                            phase: HighsPhase::Releasing,
                            ending: HighsEnding::UnknownStatus(model_status),
                            ..self
                        },
                        HighsCommand::Destroy,
                    )
                }
            },
            (
                HighsPhase::ReadingSolution(k, model_status),
                HighsEvent::Solution { solution, objective },
            ) => {
                match HighsSolver::solution(
                    HighsRun::Solved { model_status, solution, objective },
                ) {
                    Ok(answer) => self.answered(k, answer),
                    Err(_) => self.faulted(),
                }
            },
            (HighsPhase::Releasing, _) => (
                HighsSession { phase: HighsPhase::Done, ..self },
                HighsCommand::Finish,
            ),
            (HighsPhase::Done, _) => (self, HighsCommand::Finish),
            _ => self.faulted(),
        }
    }

    /// The outcome of a session that has been told to stop: the answers,
    /// one per objective; the error of an instance that could not be
    /// created; or a fault. A session that has not come to its end yet
    /// gives a fault too.
    pub fn finish(self) -> (outcome: HighsOutcome)
        ensures
            self@.phase == HighsPhase::Done && self@.ending == HighsEnding::Answers ==> (
            outcome matches HighsOutcome::Solutions(answers) && answers@.len()
                == self@.objectives && self@.answers == Seq::new(
                answers@.len(),
                |k: int| answers@[k]@,
            )),
            self@.phase == HighsPhase::Done && self@.ending == HighsEnding::NoInstance ==> (
            outcome matches HighsOutcome::Error(error) && error@
                == "Failed to create HiGHS instance"@),
            self@.phase == HighsPhase::Done ==> (self@.ending matches HighsEnding::UnknownStatus(
                status,
            ) ==> outcome matches HighsOutcome::Error(error) && error@ == unknown_status_message(
                status as int,
            )),
            self@.phase != HighsPhase::Done || self@.ending == HighsEnding::Fault ==> outcome
                == HighsOutcome::Fault,
    {
        proof {
            use_type_invariant(&self);
        }
        match (self.phase, self.ending) {
            (HighsPhase::Done, HighsEnding::Answers) => HighsOutcome::Solutions(self.answers),
            (HighsPhase::Done, HighsEnding::NoInstance) => HighsOutcome::Error(
                HighsSolver::instance_failure(),
            ),
            (HighsPhase::Done, HighsEnding::UnknownStatus(status)) => HighsOutcome::Error(
                HighsSolver::unknown_status(status),
            ),
            _ => HighsOutcome::Fault,
        }
    }
}

} // verus!
