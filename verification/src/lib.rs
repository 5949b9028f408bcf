pub mod ast;
pub mod interp;
pub mod stack;
pub mod defpass;
pub mod errors;
pub mod fns;
pub mod ir;
pub mod laws;
pub mod types;
