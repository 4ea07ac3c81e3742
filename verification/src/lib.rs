pub mod arith;
pub mod bigint;
pub mod engine;
