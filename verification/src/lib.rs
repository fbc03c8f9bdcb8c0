//! The core of a tool for building and labelling a data set of points in the
//! plane and for trying simple outlier models on it.
//!
//! [`data_definition::Data`] holds the points and records every change so that
//! it can be undone and redone. [`local_experiments`] holds the models: a
//! model is trained on a snapshot of the points and serves predictions only
//! while the data are of the version that the snapshot was taken at.
//! [`prediction_classification`] compares predictions with labels.
//!
//! Numbers are held by their bit patterns ([`double::Double`]). The crate
//! stores and orders them; what has to be computed from them, such as a
//! distance or a mean, is handed in by the caller.

pub mod click_mode;
mod clock;
pub mod data_conversion;
pub mod data_definition;
pub mod display_slice;
pub mod double;
pub mod local_experiments;
pub mod operational_state;
pub mod prediction_classification;
pub mod py_experiment;
pub mod status_msg;
pub mod text;
