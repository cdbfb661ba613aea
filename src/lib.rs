//! A punch clock: named tasks are started and finished, and elapsed time is
//! reported per name, either against a local task store or through a remote
//! service that keeps tasks per authenticated user.
pub mod api;
pub mod auth;
pub mod clock;
pub mod errors;
pub mod github;
pub mod guard;
pub mod laws;
pub mod listing;
pub mod local;
pub mod login;
pub mod puncher;
pub mod server;
pub mod store;
pub mod task;
pub mod window;
