//! Timed multi-step routines: the execution engine, the session record it
//! produces, and the crash-recovery snapshot that keeps a run durable.

pub mod models;
pub mod text;
pub mod clock;
pub mod timer_engine;
pub mod engine_laws;
pub mod session_tracker;
pub mod recovery;
pub mod audio_manager;
pub mod app_error;
pub mod tray_title;
pub mod runtime_state;
pub mod events;
pub mod sound_context;
pub mod transitions;
pub mod records;
pub mod session_flow;
pub mod session_stats;
