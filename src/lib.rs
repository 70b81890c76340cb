//! Discovery, selection and execution of runnable tasks found in a directory tree.

pub mod text;
pub mod string_list;
pub mod paths;
pub mod sources;
pub mod types;
pub mod discovery;
pub mod search;
pub mod input;
pub mod state;
pub mod execution;
