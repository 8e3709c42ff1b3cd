//! The verified core of a tracing-JIT tier for the wasmi interpreter.
//!
//! [`prepass::prepass`] lowers a function from the interpreter's operations ([`ops`]) to the
//! flat program ([`mini`]) that the kernel executes under the JIT. [`laws`] holds what is
//! proved of it: above all that the kernel, on the words of a program, carries out the
//! operations of the function, one ([`laws::execution::law_operation`]) and any number of them
//! ([`laws::function::law_function`]), as long as none reads an accumulator that the words of
//! another have used up. [`smoke`] is a small register machine of the same shape that exercises
//! the JIT.

pub mod action;
pub mod kernel;
pub mod laws;
pub mod mini;
pub mod observe;
pub mod ops;
pub mod prepass;
pub mod slots;
pub mod smoke;
pub mod stream;
pub mod word;
