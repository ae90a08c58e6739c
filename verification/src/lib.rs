//! Early-return propagation of failure through a completion carrier.
//!
//! A [`Completion`] is the outcome of a computation that either produced a
//! value or ended abruptly. [`IntoCompletion`] turns a value of some fallible
//! representation into a completion whose abrupt payload already has the
//! representation that the surrounding function returns, so that payload can
//! be returned from the function as it is:
//!
//! ```ignore
//! fn foo_as_string() -> Option<String> {
//!     Some(match IntoCompletion::into_completion(foo()) {
//!         Completion::Value(x) => x,
//!         Completion::Abrupt(x) => return x,
//!     }.to_string())
//! }
//! ```
//!
//! The same source converts differently for different return types; which
//! rule applies is decided by the types alone.
//!
//! # Rules
//!
//! | source | target | value | abrupt payload |
//! |---|---|---|---|
//! | `Result<T, E>` | `Result<U, F>`, `E: Into<F>` | `T` | `Err(err.into())` |
//! | `Result<T, E>` | `Option<Result<U, F>>`, `E: Into<F>` | `T` | `Some(Err(err.into()))` |
//! | `Option<U>` | `Option<V>` | `U` | `None` |
//! | [`ConstPtr<U>`], [`MutPtr<U>`] | `Option<V>` | the pointer | `None` for the null pointer |
//!
//! Any other type can take part by implementing [`IntoCompletion`] itself.
//!
//! # Modules
//!
//! - [`completion`]: the carrier.
//! - [`convert`]: the conversion trait and the rules for `Result` and `Option`.
//! - [`pointer`]: nullable pointers as addresses, and their rule.
//! - [`propagate`](mod@propagate): conversion and early return as one function.
//! - [`laws`]: what holds of the rules for all inputs.

pub mod completion;
pub mod convert;
pub mod laws;
pub mod pointer;
pub mod propagate;

pub use completion::Completion;
pub use convert::IntoCompletion;
pub use pointer::{ConstPtr, MutPtr};
pub use propagate::propagate;
