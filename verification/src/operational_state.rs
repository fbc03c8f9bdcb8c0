use crate::data_definition::undo_manager::DataTimestamp;
use crate::data_definition::{Data, DataPoints, MinMaxPair};
use crate::local_experiments::proximity_score::score_range;
use crate::local_experiments::{LocalExperiment, TrainOutcome};
use crate::py_experiment::{FilenameError, PathFacts, PyExperiment};
use crate::status_msg::{reported_error, reported_info, StatusMsg};
use crate::text::{debug_quoted, debug_text};
use vstd::prelude::*;
use vstd::string::StringExecFns;

verus! {

/// Which long operation is under way, if one is. Only one is at a time: a new
/// one starts from `Normal` alone.
#[derive(PartialEq, Eq, Clone, Copy, Debug, Structural)]
pub enum OperationalState {
    Normal,
    RunningPyExperiment,
    Saving,
    Loading,
    RunningLocExperiment,
}

/// How a long operation ended.
#[derive(Debug, PartialEq)]
pub enum OperationOutcome {
    /// The user turned away from it.
    Cancelled,
    Success(Payload),
    /// It failed; the text is the debug rendering of the error.
    Failed(String),
}

/// What a long operation that ended well hands over.
#[derive(Debug, PartialEq)]
pub enum Payload {
    PyRun,
    Load { loaded_data: DataPoints, path: PathFacts },
    Save { shown_path: String, path: PathFacts },
    Train(TrainOutcome),
}

impl Default for OperationalState {
    fn default() -> (r: Self)
        ensures
            r == OperationalState::Normal,
    {
        OperationalState::Normal
    }
}

impl OperationalState {
    #[must_use]
    pub fn is_normal(&self) -> (r: bool)
        ensures
            r == (*self == OperationalState::Normal),
    {
        matches!(self, Self::Normal)
    }

    #[must_use]
    pub fn is_running_py_experiment(&self) -> (r: bool)
        ensures
            r == (*self == OperationalState::RunningPyExperiment),
    {
        matches!(self, Self::RunningPyExperiment)
    }

    #[must_use]
    pub fn is_running_loc_experiment(&self) -> (r: bool)
        ensures
            r == (*self == OperationalState::RunningLocExperiment),
    {
        matches!(self, Self::RunningLocExperiment)
    }

    /// Enters `operation` if nothing is under way, and says whether it did.
    pub fn start(&mut self, operation: OperationalState) -> (r: bool)
        ensures
            r == (*old(self) == OperationalState::Normal),
            *final(self) == (if r {
                operation
            } else {
                *old(self)
            }),
    {
        if self.is_normal() {
            *self = operation;
            true
        } else {
            false
        }
    }
}

/// What is reported when a path is not taken as the data file.
pub open spec fn filename_error_text(e: FilenameError) -> Seq<char> {
    match e {
        FilenameError::NotAMatFile => "failed to set filename for python experiments: only '.mat' files are supported for experiments"@,
        FilenameError::NoDataDir => "failed to set filename for python experiments: unable to set filename as data_directory is not set"@,
        FilenameError::OutsideDataDir => "failed to set filename for python experiments: only files in data folder are allowed"@,
        FilenameError::NoFileName => "failed to set filename for python experiments: unable to get filename"@,
    }
}

fn filename_error_message(e: FilenameError) -> (r: &'static str)
    ensures
        r@ == filename_error_text(e),
{
    match e {
        FilenameError::NotAMatFile => "failed to set filename for python experiments: only '.mat' files are supported for experiments",
        FilenameError::NoDataDir => "failed to set filename for python experiments: unable to set filename as data_directory is not set",
        FilenameError::OutsideDataDir => "failed to set filename for python experiments: only files in data folder are allowed",
        FilenameError::NoFileName => "failed to set filename for python experiments: unable to get filename",
    }
}

/// Whether `after` and `status_after` are what the offer of `path` as the data
/// file leaves of `before` and `status_before`: the file name is set, or it is
/// unset and the fault reported.
pub open spec fn filename_offered(
    before: PyExperiment,
    after: PyExperiment,
    path: PathFacts,
    status_before: Seq<char>,
    status_after: Seq<char>,
) -> bool {
    &&& after.dir() == before.dir()
    &&& after.algorithms() == before.algorithms()
    &&& after.venv() == before.venv()
    &&& match before.filename_fault(path) {
        None => after.filename() == Some(path.file_name.unwrap()@) && status_after
            == status_before,
        Some(e) => after.filename().is_none() && reported_error(
            status_before,
            status_after,
            filename_error_text(e),
        ),
    }
}

/// Offers `path` as the data file of the experiments. A path that is not taken
/// leaves no data file set, and the fault is reported.
pub fn set_py_experiment_filename(
    py_experiment: &mut PyExperiment,
    path: &PathFacts,
    status_msg: &mut StatusMsg,
)
    ensures
        filename_offered(
            *old(py_experiment),
            *final(py_experiment),
            *path,
            old(status_msg)@,
            final(status_msg)@,
        ),
{
    let fault = match py_experiment.set_filename(path) {
        Ok(_) => None,
        Err(e) => Some(e),
    };
    if let Some(e) = fault {
        py_experiment.unset_filename();
        status_msg.error_debug(filename_error_message(e));
    }
}

/// Whether `after` is what a training run that ended with `outcome` leaves of
/// `before`: the chosen model, trained to the results, where the results come
/// from a run of its kind, and `before` otherwise.
pub open spec fn results_taken(
    before: LocalExperiment,
    after: LocalExperiment,
    outcome: TrainOutcome,
) -> bool {
    if before.takes(outcome) {
        &&& after.trained_on() == Some(LocalExperiment::results_of(outcome))
        &&& match outcome {
            TrainOutcome::ProximityScore { results, threshold } => {
                &&& after is ProximityScoreTrained
                &&& after->ProximityScoreTrained_0.config().threshold == threshold
                &&& after->ProximityScoreTrained_0.config().min_score == score_range(
                    results@.scores,
                ).0
                &&& after->ProximityScoreTrained_0.config().max_score == score_range(
                    results@.scores,
                ).1
            },
            TrainOutcome::SingleMax { .. } => after is SingleMaxTrained,
        }
    } else {
        after == before
    }
}

/// What is reported when training results find no model to go to.
pub open spec fn results_lost_text(experiment: LocalExperiment) -> Seq<char> {
    if experiment is NoModel {
        "failed to save training results. Type set to None"@
    } else {
        "failed to save training results. They come from another kind of model"@
    }
}

/// Hands the results of a training run to the chosen model and reports that
/// training is done, and, where the results find no model of their kind, that
/// they are lost.
pub fn take_train_outcome(
    loc_experiment: &mut LocalExperiment,
    outcome: TrainOutcome,
    status_msg: &mut StatusMsg,
)
    ensures
        results_taken(*old(loc_experiment), *final(loc_experiment), outcome),
        exists|between: Seq<char>|
            #![trigger reported_info(old(status_msg)@, between, "Model training completed"@)]
            {
                &&& reported_info(old(status_msg)@, between, "Model training completed"@)
                &&& if old(loc_experiment).takes(outcome) {
                    final(status_msg)@ == between
                } else {
                    reported_error(
                        between,
                        final(status_msg)@,
                        results_lost_text(*old(loc_experiment)),
                    )
                }
            },
{
    status_msg.info("Model training completed");
    let ghost between = status_msg@;
    match loc_experiment.trained(outcome) {
        Some(trained) => {
            *loc_experiment = trained;
        },
        None => {
            if loc_experiment.is_none() {
                status_msg.error_display("failed to save training results. Type set to None");
            } else {
                status_msg.error_display(
                    "failed to save training results. They come from another kind of model",
                );
            }
        },
    }
    assert(reported_info(old(status_msg)@, between, "Model training completed"@));
}

/// Ends the operation that is under way and applies what it came to. Loaded
/// points replace the points; a saved or loaded file is offered as the data
/// file of the experiments; training results go to the chosen model; a failure
/// is reported and changes nothing else. Returns whether the plot is to be
/// shown whole again, which is so after a load where `on_load_reset_plot_zoom`
/// asks for it.
pub fn finish(
    op_state: &mut OperationalState,
    outcome: OperationOutcome,
    data: &mut Data,
    loc_experiment: &mut LocalExperiment,
    py_experiment: &mut PyExperiment,
    status_msg: &mut StatusMsg,
    on_load_reset_plot_zoom: bool,
) -> (reset_plot_zoom: bool)
    ensures
        *final(op_state) == OperationalState::Normal,
        old(data)@.wf() ==> final(data)@.wf(),
        match outcome {
            OperationOutcome::Cancelled => {
                &&& !reset_plot_zoom
                &&& final(data)@ == old(data)@
                &&& final(data).cached() == old(data).cached()
                &&& *final(loc_experiment) == *old(loc_experiment)
                &&& *final(py_experiment) == *old(py_experiment)
                &&& final(status_msg)@ == old(status_msg)@
            },
            OperationOutcome::Failed(e) => {
                &&& !reset_plot_zoom
                &&& final(data)@ == old(data)@
                &&& final(data).cached() == old(data).cached()
                &&& *final(loc_experiment) == *old(loc_experiment)
                &&& *final(py_experiment) == *old(py_experiment)
                &&& reported_error(old(status_msg)@, final(status_msg)@, e@)
            },
            OperationOutcome::Success(Payload::PyRun) => {
                &&& !reset_plot_zoom
                &&& final(data)@ == old(data)@
                &&& final(data).cached() == old(data).cached()
                &&& *final(loc_experiment) == *old(loc_experiment)
                &&& *final(py_experiment) == *old(py_experiment)
                &&& reported_info(old(status_msg)@, final(status_msg)@, "Python Run succeeded"@)
            },
            OperationOutcome::Success(Payload::Load { loaded_data, path }) => {
                &&& reset_plot_zoom == on_load_reset_plot_zoom
                &&& exists|timestamp: DataTimestamp|
                    final(data)@ == old(data)@.loaded(loaded_data@, timestamp)
                &&& final(data).cached() == None::<MinMaxPair>
                &&& *final(loc_experiment) == *old(loc_experiment)
                &&& filename_offered(
                    *old(py_experiment),
                    *final(py_experiment),
                    path,
                    old(status_msg)@,
                    final(status_msg)@,
                )
            },
            OperationOutcome::Success(Payload::Save { shown_path, path }) => {
                &&& !reset_plot_zoom
                &&& final(data)@ == old(data)@
                &&& final(data).cached() == old(data).cached()
                &&& *final(loc_experiment) == *old(loc_experiment)
                &&& exists|between: Seq<char>|
                    #![trigger filename_offered(*old(py_experiment), *final(py_experiment), path, between, final(status_msg)@)]
                    {
                        &&& reported_info(
                            old(status_msg)@,
                            between,
                            "Save successfully to "@ + debug_text(shown_path@),
                        )
                        &&& filename_offered(
                            *old(py_experiment),
                            *final(py_experiment),
                            path,
                            between,
                            final(status_msg)@,
                        )
                    }
            },
            OperationOutcome::Success(Payload::Train(train_outcome)) => {
                &&& !reset_plot_zoom
                &&& final(data)@ == old(data)@
                &&& final(data).cached() == old(data).cached()
                &&& *final(py_experiment) == *old(py_experiment)
                &&& results_taken(*old(loc_experiment), *final(loc_experiment), train_outcome)
                &&& exists|between: Seq<char>|
                    #![trigger reported_info(old(status_msg)@, between, "Model training completed"@)]
                    {
                        &&& reported_info(old(status_msg)@, between, "Model training completed"@)
                        &&& if old(loc_experiment).takes(train_outcome) {
                            final(status_msg)@ == between
                        } else {
                            reported_error(
                                between,
                                final(status_msg)@,
                                results_lost_text(*old(loc_experiment)),
                            )
                        }
                    }
            },
        },
{
    *op_state = OperationalState::Normal;
    match outcome {
        OperationOutcome::Cancelled => false,
        OperationOutcome::Success(payload) => match payload {
            Payload::PyRun => {
                status_msg.info("Python Run succeeded");
                false
            },
            Payload::Load { loaded_data, path } => {
                data.replace_with_loaded_data(loaded_data);
                set_py_experiment_filename(py_experiment, &path, status_msg);
                on_load_reset_plot_zoom
            },
            Payload::Save { shown_path, path } => {
                let mut said = String::from_str("Save successfully to ");
                said.append(debug_quoted(shown_path.as_str()).as_str());
                status_msg.info(said.as_str());
                let ghost between = status_msg@;
                set_py_experiment_filename(py_experiment, &path, status_msg);
                assert(filename_offered(
                    *old(py_experiment),
                    *py_experiment,
                    path,
                    between,
                    status_msg@,
                ));
                false
            },
            Payload::Train(train_outcome) => {
                take_train_outcome(loc_experiment, train_outcome, status_msg);
                false
            },
        },
        OperationOutcome::Failed(e) => {
            status_msg.error_debug(e.as_str());
            false
        },
    }
}

} // verus!
