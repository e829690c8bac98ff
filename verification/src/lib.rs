//! A virtual machine for the LC-3, a 16-bit word-addressed teaching computer.
//!
//! The machine is a state machine without side effects: it owns its memory,
//! its registers and its console, which is a queue of bytes that wait to be
//! read and a buffer of bytes that were written. Whoever drives the machine
//! feeds the queue and empties the buffer.
//!
//! - [`word`]: sign extension and 16-bit wrapping arithmetic.
//! - [`op`]: the operation codes and the trap vectors.
//! - [`flag`]: the condition flag.
//! - [`fields`]: the fields of an instruction word.
//! - [`image`]: the program image and the state in which a machine starts on it.
//! - [`machine`]: the mathematical model, the effect of every instruction as
//!   a function from state to state.
//! - [`vm`]: the engine, every function of which is specified against the model.
//! - [`laws`]: what holds of every state and of every run.

pub mod fields;
pub mod flag;
pub mod image;
pub mod laws;
pub mod machine;
pub mod op;
pub mod vm;
pub mod word;
