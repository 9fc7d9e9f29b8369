//! Owned, validity-checked wrappers around the handles of a native debugger
//! scripting library.
//!
//! Nothing in this crate touches native memory. Every operation is written as
//! an exchange: it names the native call that has to be made next, and, once
//! the replies are in, says what they mean.

pub mod address;
pub mod broadcaster;
pub mod data;
pub mod event;
pub mod exchange;
pub mod filespec;
pub mod instruction;
pub mod lifetime;
pub mod processinfo;
pub mod sys;
pub mod target;
pub mod text;

pub use address::SBAddress;
pub use broadcaster::SBBroadcaster;
pub use data::SBData;
pub use event::SBEvent;
pub use exchange::Progress;
pub use filespec::SBFileSpec;
pub use instruction::SBInstruction;
pub use processinfo::SBProcessInfo;
pub use sys::{lldb_pid_t, Call, Reply};
pub use target::SBTarget;
pub use text::Fault;
