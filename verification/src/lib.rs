//! Control and memory-safety scaffolding of a host platform that lets a
//! managed, reference-counted application drive a native graphics, audio and
//! network runtime.
//!
//! The crate holds the decisions of the platform, each with a contract:
//! which effect is legal in which phase, which slot of a resource arena a
//! handle names and how long it lives, how the events of one frame fold into
//! the state handed to the application, and how the network bridge reacts to
//! commands, timer ticks and the end of its transport.

pub mod address;
pub mod config;
pub mod effects;
pub mod glue;
pub mod heap;
pub mod input;
pub mod music_heap;
pub mod peers;
pub mod platform_mode;
pub mod platform_time;
pub mod resources;
pub mod roc;
pub mod worker;
