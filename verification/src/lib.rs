//! Boilrs: hello-world templates for a fixed set of languages, and the
//! decisions of the tool that hands them out: which language a line asks
//! for, whether the user wants the template saved, where to, and under which
//! name. Reading lines and writing files is left to whoever drives the run.

pub mod messages;
pub mod outcome;
pub mod registry;
pub mod save;
pub mod session;
pub mod templates;
pub mod text;
