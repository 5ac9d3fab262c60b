//! A countdown timer for a status bar: the timer's state machine, the status
//! record it publishes, the list of subscribers it is pushed to, and the
//! encoding of the commands that drive it.

pub mod broadcast;
pub mod clock;
pub mod status;
pub mod timer;
pub mod laws;
pub mod protocol;
pub mod server;
