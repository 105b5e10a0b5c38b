//! Tracee control core of a record-and-replay debugger: register and
//! wait-status models, the resume/stop protocol of a traced thread, trap
//! classification, remote-memory transfer plans, clone/exec bookkeeping,
//! syscall-exit state mirroring and orderly session shutdown.
//!
//! Every operation that touches the kernel (ptrace, waitpid, pread/pwrite on
//! `/proc/<tid>/mem`, tgkill) is performed by the caller; the functions here
//! take what the kernel reported as plain values and say what to do next.

pub mod kernel;
pub mod registers;
pub mod wait_status;
pub mod ptrace_reflect;
pub mod syscall_exit;
pub mod task;
pub mod trap;
pub mod remote_mem;
pub mod session;
pub mod clone_exec;
