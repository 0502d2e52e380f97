//! A small library of composable actions: values wrapped in an effect
//! context (an identity wrapper, a writer log, or a possible error),
//! combined with `map`, sequential pairing and `and_then` chaining, and
//! built against a caller-chosen stack of carriers ("scaffolds").

pub mod action;
pub mod arrow;
pub mod error;
pub mod identity;
pub mod laws;
pub mod monoid;
pub mod scaffold;
pub mod stacked;
pub mod typebuilder;
pub mod writer;

pub use action::{
    Action, AndThen, AndThenCtx, Combine, First, Literal, Mapped, Mappable, Pure, Second, Sequence,
    Sequential, literal, pure,
};
pub use error::{catch_error, throw_error};
pub use identity::Id;
pub use monoid::Monoid;
pub use scaffold::{Ap, BuildError, BuildId, BuildWriter, Run};
pub use stacked::{Stacked, WriterErrorStack, stacked};
pub use typebuilder::TypeBuilder;
pub use writer::{Writer, listen, pass, tell, writer};
