//! Decision logic of a small git front-end: a commit-and-push workflow
//! driven as a state machine, the normalisation of subprocess results, the
//! shell lines of its commands, and the navigation state of a tabbed
//! repository view.
pub mod command;
pub mod process;
pub mod screen;
pub mod workflow;
