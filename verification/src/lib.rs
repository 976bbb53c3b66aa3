//! Binding generator core: an intermediate representation of exported
//! functions, marshaling-rule inference, native symbol mangling, target code
//! emission, and the runtime handle pool with its task bridge.

pub mod text;
pub mod mangle;
pub mod syntax;
pub mod util;
pub mod rule;
pub mod parse;
pub mod ir;
pub mod scan;
pub mod tree;
pub mod jni;
pub mod returned;
pub mod object;
pub mod future;
pub mod codegen;
pub mod iterator;
pub mod sample;
pub mod config;
pub mod expand;
pub mod target;
pub mod closed;
pub mod fixture;
