//! Live shader reloading for a demo renderer: a registry from shader files to
//! the pipelines built from them, the rules that turn file events into
//! reloads, and the shader compiler that stands between the two.

pub mod context;
pub mod event_loop;
pub mod utils;
pub mod watcher;
