//! Host-side logic of a bridge into an embedded Scheme runtime: opaque value
//! handles and their sentinels, conversion of host text into the runtime's
//! null-terminated form, the runtime's lifecycle, and the read-eval-print
//! driver as a state machine. The calls into the runtime itself are made by
//! the program around this library, which performs each action that the
//! driver asks for and hands the result back.
pub mod handle;
pub mod text;
pub mod repl;
pub mod lifecycle;
pub mod host;
