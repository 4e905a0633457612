use vstd::prelude::*;

pub mod alerts;
pub mod app_server;
pub mod clock;
pub mod control;
pub mod executable;
pub mod json;
pub mod logging;
pub mod paths;
pub mod provider;
pub mod system_monitor;
pub mod taskbar;
pub mod text;
pub mod usage;
pub mod window_style;
