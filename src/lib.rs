//! Injection and hot-reload of a payload module inside a running host process.
//!
//! The decisions of the subsystem live here and are verified: the command
//! protocol, the module lifecycle state machine with its staged copies, the
//! shutdown latch, process and module lookup over listings, the injector's
//! operator state, and the class mapping data of the payload.
pub mod command;
pub mod injector;
pub mod lifecycle;
pub mod mapping;
pub mod process;
pub mod shutdown;
pub mod staging;
pub mod text;

pub use command::{
    pause_after, reload_request, AcceptOutcome, Command, Dispatch, ProtocolError,
    ACCEPT_ERROR_PAUSE_MS, IDLE_POLL_MS,
};
pub use injector::{InjectionError, InjectorGUI};
pub use lifecycle::{Action, After, Event, LifecycleError, ModuleLifecycleManager, Phase, Request};
pub use mapping::{Field, FieldType, Mapping, Method, MinecraftClass, MinecraftClassType};
pub use process::{find_pid, ProcessEntry};
pub use shutdown::ShutdownLatch;
pub use staging::{is_module_file, is_module_mapped, module_file_name, staged_file_name};
pub use text::{decimal_string, trim_quotes};
