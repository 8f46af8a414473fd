use vstd::prelude::*;

pub mod cnx;
pub mod config;
pub mod lemmas;
pub mod markup;
pub mod runtime;

pub use cnx::{Cnx, Launch};
pub use config::{Offset, Position};
pub use markup::template;
pub use runtime::{Action, Event, Runtime};

verus! {

} // verus!
