//! Training: hyperparameter hygiene, trainer metrics, the trainer run, and the
//! single-job orchestrator.

pub mod hyperparams;
pub mod monitor;
pub mod python_bridge;
pub mod orchestrator;
