//! Fallible lookups over a sequence of containers, gathered either into one
//! all-or-nothing result or into one result per container.

pub mod aggregate;
pub mod bar;
pub mod foo;
pub mod lemmas;
pub mod outcome;
pub mod text;
