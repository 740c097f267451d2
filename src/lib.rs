//! An authority-controlled ledger of experiments: each experiment lives at an
//! address derived from its authority and its id, counts the events appended to
//! it and moves once, irreversibly, from active to completed.

pub mod address;
pub mod laws;
pub mod program;
pub mod state;

pub use address::{derive_address, PROGRAM_ID};
pub use program::{
    authorize, complete_experiment, complete_experiment_at, initilize_experiment,
    initilize_experiment_at, record_event, record_event_at, CompleteExperiment, ExperimentAccount,
    ExperimentCompletedEvent, ExperimentEvent, InitializeExperiment, RecordEvent, VotiusError,
};
pub use state::{Address, Experiment, ExperimentStatus};
