//! Headless driver for the Codex agent: the decisions of the driver and of its command line,
//! stated and proved apart from the channels, threads and terminal that carry them out.

pub mod agent;
pub mod agent_laws;
pub mod changes;
pub mod cli;
pub mod cli_laws;
pub mod cli_step_laws;
pub mod command;
pub mod config;
pub mod event;
pub mod laws;
pub mod model_laws;
pub mod path;
pub mod prelude;
pub mod protocol;
pub mod render;
pub mod render_laws;
pub mod start_laws;
pub mod startup;
pub mod stream;
pub mod text;
pub mod text_laws;
pub mod translate;
pub mod translate_laws;
