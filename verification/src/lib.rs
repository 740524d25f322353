//! Compiles a fixed syscall-denial policy into the rule program a kernel
//! filter enforces, parameterized by target architecture and by whether the
//! filtered process may build nested sandboxes of its own. The caller
//! supplies the syscall-name resolver's answers and renders the result.
pub mod compiler;
pub mod policy;
