//! Runtime support for a guest program inside a small virtual machine: a bump
//! allocator over a host-provided arena, the stack budget reported to boot code,
//! the single fault path, and the trampoline into the program's entry function.
pub mod heap;
pub mod stack;
pub mod fault;
pub mod entry;
