//! Inspection of another process's memory, kept free of operating-system calls.
//!
//! The crate holds the rules of a process/module introspection engine: how a
//! process and its modules are picked out of a snapshot, which access rights
//! are asked for and in what order, how typed values are laid out in the
//! target's memory, how a pointer chain is followed and how a byte signature
//! is located and turned into an address. Every operating-system call is left
//! to the host program: it performs the transfer that the library asks for and
//! hands back what the system reported, as plain values.
pub mod ai_hooks;
pub mod chain;
pub mod errors;
pub mod example_errors;
pub mod game_mode_hooks;
pub mod game_option_hooks;
pub mod handle;
pub mod helpers;
pub mod manager;
pub mod memory;
pub mod module;
pub mod process;
pub mod signature;
pub mod text;
pub mod tlhelp32;
pub mod value;
pub mod yuri_errors;

pub use ai_hooks::{AiDifficulty, AiSlot, AiSlots};
pub use chain::{ChainStep, PendingDeref};
pub use errors::MemoryError;
pub use example_errors::{ExampleError, ExampleErrorKind};
pub use game_mode_hooks::{GameModeOptions, SessionOptionsClass, Vector3D};
pub use game_option_hooks::GameOptions;
pub use handle::{Handle, OpenRequest};
pub use helpers::{TransposeIndexer, TransposedArray};
pub use manager::YuriGameManager;
pub use memory::{ImageView, MemoryImage};
pub use module::Module;
pub use process::{
    AccessRights,
    KillRequest,
    OpenProgress,
    OpenedProcess,
    PendingOpen,
    WindowsProcess,
};
pub use signature::{PatternToken, Signature};
pub use tlhelp32::{
    ModuleDescriptor,
    ModuleEntry,
    ProcessDescriptor,
    ProcessEntry,
    Snapshot,
    SnapshotRequest,
};
pub use value::MemoryValue;
pub use yuri_errors::{YuriError, YuriErrorKind};
