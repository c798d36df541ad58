//! Value encodings shared by a microkernel and the tasks that call into it.
//!
//! Every value that crosses the system-call boundary has two forms: a small
//! integer on the wire and a typed value on either side of it. Each module
//! fixes that mapping for one family of values and proves that encoding and
//! decoding agree.

pub mod process;
pub mod resource;
pub mod shm;
pub mod signal;
pub mod sleep;
pub mod status;
pub mod syscall;

pub use process::ProcessID;
pub use process::ProcessLabel;
pub use resource::HandleFields;
pub use resource::ResourceHandle;
pub use resource::ResourceType;
pub use shm::SHMPermission;
pub use signal::Signal;
pub use sleep::CPUSleep;
pub use sleep::SleepDuration;
pub use sleep::SleepMode;
pub use status::Status;
pub use syscall::DispatchError;
pub use syscall::Syscall;
