//! Settings state, runtime status bookkeeping and the decision logic of an
//! anti-AFK helper for the Sober Roblox client on Wayland desktops.
//!
//! Everything that talks to the machine (processes, files, the uinput
//! device, the GTK widgets, desktop notifications) lives outside this
//! library; the functions here take what was observed as plain values and
//! say exactly what to do next.

pub mod state;
pub mod text;
pub mod backend;
pub mod supervisor;
pub mod scopes;
pub mod procs;
pub mod focus;
pub mod config;
pub mod ui;
