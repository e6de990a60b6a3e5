//! Controller for a single push to a remote: it decides when credentials are
//! needed, what request the transfer engine receives, how progress is shown
//! and when a finished transfer is reported.
//!
//! The controller never performs I/O itself. Each step returns an [`Action`]
//! for the caller to carry out, and the caller hands back what came of it.

pub mod credential;
pub mod input;
pub mod laws;
pub mod progress;
pub mod push;

pub use credential::{CredComponent, CredField, Credential};
pub use input::{Command, CommandBlocking, CommandInfo, InputEvent, Key};
pub use progress::{get_progress, progress_state_name, PushProgress, PushProgressState};
pub use push::{
    Action, AsyncNotification, InternalEvent, PushComponent, PushRequest, DEFAULT_REMOTE_NAME,
};
