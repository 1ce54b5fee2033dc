//! Client-side model of the platform's app-building agent workflow: the
//! snapshot it polls, the watch loop that folds snapshots into a display and
//! decides when the workflow is over, the requests that drive the workflow,
//! and the reports printed about it.

pub mod config;
pub mod error;
pub mod ids;
pub mod model;
pub mod render;
pub mod report;
pub mod resources;
pub mod run;
pub mod settings;
pub mod summary;
pub mod text;
pub mod watch;
pub mod workflow;
