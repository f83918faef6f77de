//! The native-call bridge of a WebAssembly runtime: calling an exported
//! function with typed native arguments while the function runs inside a
//! host engine that has a value type of its own.
//!
//! - [`value`]: native values and the untagged 128-bit slot that carries
//!   them, bit for bit.
//! - [`host`]: the host engine's values, and the conversion between them
//!   and slots.
//! - [`trap`]: traps, and how a failure of the engine becomes one.
//! - [`store`]: the context that a call borrows, with its callback slot.
//! - [`typed_function`]: binding a signature, marshalling arguments,
//!   unmarshalling results.
//! - [`call_loop`]: the states of a call that may enter the engine more
//!   than once, and the steps between them.
//! - [`dispatch`]: what holds of a call as a whole.
//! - [`common`]: structures that the commands of the runtime share.
//!
//! Nothing here enters the engine. A caller performs what the states of
//! [`call_loop::CallState`] ask for and hands back what came of it.

pub mod call_loop;
pub mod common;
pub mod dispatch;
pub mod host;
pub mod store;
pub mod trap;
pub mod typed_function;
pub mod value;
