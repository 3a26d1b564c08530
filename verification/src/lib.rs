//! Commands for development scripts: a builder for them, and the course of their
//! invocation, proved.
//!
//! The main entities are [`Cmd`], which says what is to be invoked, and [`Session`], an
//! invocation under way. A session does nothing by itself: it says which [`Action`] is to be
//! taken next, is told which [`Event`] came of it, and goes on from there until it has a
//! result. Whoever drives it starts the processes, writes and reads their streams and prints
//! the lines to be logged; what to do, in which order, and what the result is, is decided
//! here.
//!
//! [`course`] says what whole sessions do, and [`laws`] what holds of the library. What is
//! observed of a session from one action to the next is in [`conduct`], what its values hold
//! in [`content`], and what its messages say in [`wording`].
pub mod cmd;
pub mod conduct;
pub mod content;
pub mod course;
pub mod error;
pub mod input;
pub mod invoke;
pub mod laws;
pub mod lines;
pub mod message;
pub mod os;
pub mod process;
pub mod search;
pub mod session;
pub mod text;
pub mod wording;

pub use cmd::Cmd;
pub use error::{Cause, Error};
pub use input::BinOrUtf8;
pub use lines::{LineStep, Lines};
pub use process::{Action, ChildProcess, Event, ExitStatus, Launch, Stdio};
pub use search::Search;
pub use session::{Goal, Outcome, Session, Step};
