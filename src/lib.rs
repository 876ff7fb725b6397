use vstd::prelude::*;

pub mod classify;
pub mod command;
pub mod engine;
pub mod gist;
pub mod types;

verus! {

/// Which of the three operations a request asks for.
#[derive(Clone, Copy, Debug, PartialEq, Eq, Structural)]
pub enum OperationKind {
    Compile,
    Test,
    Format,
}

} // verus!
