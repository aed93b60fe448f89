//! Client side of a diagnostic log-and-trace transport: the control-message
//! wire format, the registry of logging contexts, the environment overrides,
//! and the decisions of the connection and dispatch loops.

pub mod client;
pub mod config;
pub mod error;
pub mod fifo;
pub mod ini_file;
pub mod mainloop;
pub mod message;
pub mod return_value;
pub mod ring;
pub mod text;
pub mod user;
pub mod user_header;
pub mod wire;

pub use client::{
    dlt_env_extract_ll_set, dltinitcommon, Context, DltUserInner, EnvSettings, InitialLogLevel,
    LocalPrintMode, LogState,
};
pub use message::MessageContext;
pub use user::DltUser;
