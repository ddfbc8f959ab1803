//! Runtime core of a stack-based bytecode virtual machine: typed runtime
//! values, the per-call operand stack and local variable table, loaded class
//! metadata with its constant pool, and the class repository.
#![allow(non_camel_case_types)]
#![allow(non_snake_case)]

pub mod error;
pub mod value;
pub mod stack;
pub mod locals;
pub mod constant_pool;
pub mod klass;
pub mod repo;

pub use error::VmError;
pub use value::{jvm_value, ot_obj};
pub use stack::{InterpEvalStack, interp_eval_stack};
pub use locals::interp_local_vars;
pub use constant_pool::{cp_attr, cp_entry};
pub use klass::{ot_field, ot_klass, ot_method};
pub use repo::{shared_klass_repo, shared_simple_heap, vm_context};
