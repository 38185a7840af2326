//! Safety layer between a process and a pointer-based OPC DA data-access
//! library: a value codec, the handle ownership chain, and the notification
//! bridge.

pub mod backend;
pub mod client;
pub mod codec;
pub mod error;
pub mod group;
pub mod item;
pub mod memory;
pub mod payload;
pub mod server;
pub mod text;
pub mod types;
pub mod utils;

pub use backend::{NativeBackend, StubBackend};
pub use client::{connect_to_server, connect_to_server_on_host, OpcClient};
pub use error::{OpcError, OpcResult};
pub use group::OpcGroup;
pub use item::OpcItem;
pub use memory::RawValue;
pub use server::OpcServer;
pub use types::{Float32, Float64, OpcDataCallback, OpcQuality, OpcValue, OpcValueError};
pub use utils::{from_wide_string, to_wide_string};
