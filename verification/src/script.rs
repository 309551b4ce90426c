use crate::backend::BackendCall;
use crate::errors::{BackendError, Error, ErrorModel};
use crate::resource::{UniformVariable, VertexAttribute};
use vstd::prelude::*;
use vstd::slice::slice_to_vec;

verus! {

/// What follows when a program has no uniform of the name looked up.
#[derive(Clone, Copy, Debug, PartialEq, Eq, Structural, Hash)]
pub enum Missing {
    /// Nothing is bound; the work goes on.
    Skip,
    /// The work ends with `Error::UniformNotFound`.
    FailUniform,
    /// The work ends with `Error::TextureNotFound`.
    FailTexture,
}

/// One step of work for the backend.
#[derive(Debug, PartialEq, Eq)]
pub enum Step {
    /// Make the call.
    Call(BackendCall),
    /// Look the attribute up in the program. With none found the work ends
    /// with `Error::AttributeNotFound`.
    Attribute { program: u32, attribute: VertexAttribute },
    /// Look the name up among the uniforms of the program, and bind
    /// `variable` where it was found. With none found, `missing` decides.
    Uniform { program: u32, name: Vec<u8>, variable: UniformVariable, missing: Missing },
}

/// A `Step` with its name as the sequence of its bytes.
pub ghost enum StepModel {
    Call(BackendCall),
    Attribute { program: u32, attribute: VertexAttribute },
    Uniform { program: u32, name: Seq<u8>, variable: UniformVariable, missing: Missing },
}

impl View for Step {
    type V = StepModel;

    open spec fn view(&self) -> StepModel {
        match self {
            Step::Call(call) => StepModel::Call(*call),
            Step::Attribute { program, attribute } => StepModel::Attribute {
                program: *program,
                attribute: *attribute,
            },
            Step::Uniform { program, name, variable, missing } => StepModel::Uniform {
                program: *program,
                name: name@,
                variable: *variable,
                missing: *missing,
            },
        }
    }
}

/// The steps of `steps`, each as its model.
pub open spec fn step_models(steps: Seq<Step>) -> Seq<StepModel> {
    steps.map_values(|step: Step| step@)
}

/// What `outcome` says went wrong, if anything.
pub open spec fn failure_of(outcome: Result<(), Error>) -> Option<ErrorModel> {
    match outcome {
        Ok(_) => None,
        Err(error) => Some(error@),
    }
}

/// Work for the backend: steps to take in order, up to the first that
/// fails, and how the work ends when none has failed.
#[derive(Debug, PartialEq, Eq)]
pub struct Script {
    pub steps: Vec<Step>,
    pub outcome: Result<(), Error>,
}

/// A `Script` as plain values.
pub ghost struct ScriptModel {
    pub steps: Seq<StepModel>,
    pub failure: Option<ErrorModel>,
}

impl View for Script {
    type V = ScriptModel;

    open spec fn view(&self) -> ScriptModel {
        ScriptModel { steps: step_models(self.steps@), failure: failure_of(self.outcome) }
    }
}

/// What the backend is asked to do next.
#[derive(Debug, PartialEq, Eq)]
pub enum Request<'a> {
    /// Make the call.
    Call(BackendCall),
    /// Answer with the location of the uniform of this name in the program,
    /// or with -1 if it has none.
    Locate { program: u32, name: &'a [u8] },
}

/// A `Request` with its name as the sequence of its bytes.
pub ghost enum RequestModel {
    Call(BackendCall),
    Locate { program: u32, name: Seq<u8> },
}

impl<'a> View for Request<'a> {
    type V = RequestModel;

    open spec fn view(&self) -> RequestModel {
        match self {
            Request::Call(call) => RequestModel::Call(*call),
            Request::Locate { program, name } => RequestModel::Locate {
                program: *program,
                name: name@,
            },
        }
    }
}

/// A script being carried out: the caller makes the call that `request`
/// names and hands the backend's answer to `resume`, until nothing is
/// requested any more.
#[derive(Debug, PartialEq, Eq)]
pub struct Run {
    pub steps: Vec<Step>,
    pub outcome: Result<(), Error>,
    /// The step that is being taken.
    pub cursor: usize,
    /// Where the uniform of the step being taken was found, once it was.
    pub location: Option<i32>,
    /// Why the work ended early, if it did.
    pub failure: Option<Error>,
}

/// A `Run` as plain values.
pub ghost struct RunModel {
    pub steps: Seq<StepModel>,
    pub outcome: Option<ErrorModel>,
    pub cursor: nat,
    pub location: Option<i32>,
    pub failure: Option<ErrorModel>,
}

impl View for Run {
    type V = RunModel;

    open spec fn view(&self) -> RunModel {
        RunModel {
            steps: step_models(self.steps@),
            outcome: failure_of(self.outcome),
            cursor: self.cursor as nat,
            location: self.location,
            failure: match self.failure {
                Some(error) => Some(error@),
                None => None,
            },
        }
    }
}

impl RunModel {
    /// The run at the start of `script`.
    pub open spec fn start(script: ScriptModel) -> RunModel {
        RunModel {
            steps: script.steps,
            outcome: script.failure,
            cursor: 0,
            location: None,
            failure: None,
        }
    }

    /// No step is left to take.
    pub open spec fn finished(self) -> bool {
        self.failure is Some || self.cursor >= self.steps.len()
    }

    /// How the work ended: with the failure that ended it early, or else as
    /// the script says.
    pub open spec fn result(self) -> Option<ErrorModel> {
        if self.failure is Some {
            self.failure
        } else {
            self.outcome
        }
    }

    /// What the backend is asked next, if anything.
    pub open spec fn request(self) -> Option<RequestModel> {
        if self.finished() {
            None
        } else {
            Some(
                match self.steps[self.cursor as int] {
                    StepModel::Call(call) => RequestModel::Call(call),
                    StepModel::Attribute { program, attribute } => RequestModel::Call(
                        BackendCall::GetAttributeLocation { program, attribute },
                    ),
                    StepModel::Uniform { program, name, variable, missing } => match self.location {
                        None => RequestModel::Locate { program, name },
                        Some(location) => RequestModel::Call(
                            BackendCall::BindUniform { location, variable },
                        ),
                    },
                },
            )
        }
    }

    /// The run with the step being taken behind it.
    pub open spec fn advanced(self) -> RunModel {
        RunModel { cursor: self.cursor + 1, location: None, ..self }
    }

    /// The run ended early by `error`.
    pub open spec fn failed(self, error: ErrorModel) -> RunModel {
        RunModel { failure: Some(error), location: None, ..self }
    }

    /// The run after the backend answered what was requested: an error, or
    /// else a number, which is read only where a location was asked for.
    pub open spec fn resumed(self, answer: Result<i32, BackendError>) -> RunModel {
        if self.finished() {
            self
        } else {
            match answer {
                Err(error) => self.failed(ErrorModel::Backend(error)),
                Ok(found) => match self.steps[self.cursor as int] {
                    StepModel::Call(_) => self.advanced(),
                    StepModel::Attribute { program, attribute } => if found == -1 {
                        self.failed(ErrorModel::AttributeNotFound(attribute))
                    } else {
                        self.advanced()
                    },
                    StepModel::Uniform { program, name, variable, missing } => if self.location
                        is Some {
                        self.advanced()
                    } else if found != -1 {
                        RunModel { location: Some(found), ..self }
                    } else {
                        match missing {
                            Missing::Skip => self.advanced(),
                            Missing::FailUniform => self.failed(ErrorModel::UniformNotFound(name)),
                            Missing::FailTexture => self.failed(ErrorModel::TextureNotFound(name)),
                        }
                    },
                },
            }
        }
    }
}

impl Run {
    /// Starts on `script`.
    pub fn new(script: Script) -> (run: Run)
        ensures
            run@ == RunModel::start(script@),
    {
        Run {
            steps: script.steps,
            outcome: script.outcome,
            cursor: 0,
            location: None,
            failure: None,
        }
    }

    /// Whether no step is left to take.
    pub fn finished(&self) -> (b: bool)
        ensures
            b == self@.finished(),
    {
        self.failure.is_some() || self.cursor >= self.steps.len()
    }

    /// What to ask the backend next; `None` once the run is finished.
    pub fn request(&self) -> (r: Option<Request<'_>>)
        ensures
            match r {
                Some(request) => self@.request() == Some(request@),
                None => self@.request() is None,
            },
    {
        if self.finished() {
            return None;
        }
        match &self.steps[self.cursor] {
            Step::Call(call) => Some(Request::Call(*call)),
            Step::Attribute { program, attribute } => Some(
                Request::Call(
                    BackendCall::GetAttributeLocation { program: *program, attribute: *attribute },
                ),
            ),
            Step::Uniform { program, name, variable, missing } => match self.location {
                None => Some(Request::Locate { program: *program, name: name.as_slice() }),
                Some(location) => Some(
                    Request::Call(BackendCall::BindUniform { location, variable: *variable }),
                ),
            },
        }
    }

    /// Takes the backend's answer to what was requested. On a finished run
    /// this does nothing.
    pub fn resume(&mut self, answer: Result<i32, BackendError>)
        ensures
            final(self)@ == old(self)@.resumed(answer),
    {
        if self.finished() {
            return ;
        }
        assert(step_models(self.steps@).len() == self.steps@.len());
        let cursor = self.cursor;
        assert(cursor < self.steps.len());
        let found = match answer {
            Err(error) => {
                self.failure = Some(Error::Backend(error));
                self.location = None;
                return ;
            },
            Ok(found) => found,
        };
        let failure: Option<Error> = match &self.steps[self.cursor] {
            Step::Call(_) => None,
            Step::Attribute { program, attribute } => if found == -1 {
                Some(Error::AttributeNotFound(*attribute))
            } else {
                None
            },
            Step::Uniform { program, name, variable, missing } => if self.location.is_some() {
                None
            } else if found != -1 {
                self.location = Some(found);
                return ;
            } else {
                match missing {
                    Missing::Skip => None,
                    Missing::FailUniform => Some(
                        Error::UniformNotFound(slice_to_vec(name.as_slice())),
                    ),
                    Missing::FailTexture => Some(
                        Error::TextureNotFound(slice_to_vec(name.as_slice())),
                    ),
                }
            },
        };
        match failure {
            Some(error) => {
                self.failure = Some(error);
                self.location = None;
            },
            None => {
                self.cursor = cursor + 1;
                self.location = None;
            },
        }
    }

    /// How the work ended, once the run is finished; `None` before that.
    pub fn into_result(self) -> (r: Option<Result<(), Error>>)
        ensures
            match r {
                Some(result) => self@.finished() && failure_of(result) == self@.result(),
                None => !self@.finished(),
            },
    {
        if self.failure.is_some() {
            match self.failure {
                Some(error) => Some(Err(error)),
                None => None,
            }
        } else if self.cursor >= self.steps.len() {
            Some(self.outcome)
        } else {
            None
        }
    }
}

/// A failure of the backend ends a run for good: nothing is requested any
/// more, the failure is how the work ended, and no later answer changes it.
pub proof fn lemma_backend_failure_ends_run(
    run: RunModel,
    error: BackendError,
    later: Result<i32, BackendError>,
)
    requires
        !run.finished(),
    ensures
        run.resumed(Err(error)).finished(),
        run.resumed(Err(error)).request() is None,
        run.resumed(Err(error)).result() == Some(ErrorModel::Backend(error)),
        run.resumed(Err(error)).resumed(later) == run.resumed(Err(error)),
{
}

/// While a run is not finished, an answer takes it at most one step on,
/// and never back.
pub proof fn lemma_run_goes_forward(run: RunModel, answer: Result<i32, BackendError>)
    ensures
        run.resumed(answer).steps == run.steps,
        run.resumed(answer).outcome == run.outcome,
        run.cursor <= run.resumed(answer).cursor <= run.cursor + 1,
        run.failure is Some ==> run.resumed(answer) == run,
{
}

} // verus!
