//! Session runtime for an embeddable interactive-shell server.
//!
//! The crate models the per-connection protocol adapter, the session facade
//! handed to application code, the authentication dispatch, and the
//! middleware-chain ordering as verified state machines over plain values.
//! The asynchronous transport glue that drives these machines lives outside
//! the verified core.

pub mod auth;
pub mod connection;
pub mod env_map;
pub mod error;
pub mod event;
pub mod keys;
pub mod kind;
pub mod middleware;
pub mod pty;
pub mod server;
pub mod session;
pub mod sftp;
pub mod text;
pub mod writer;

pub use auth::AuthConfig;
pub use auth::AuthDecision;
pub use auth::MethodSet;
pub use connection::Connection;
pub use env_map::EnvMap;
pub use error::Error;
pub use event::Event;
pub use event::Frame;
pub use keys::KeyCode;
pub use keys::KeyEvent;
pub use keys::KeyModifiers;
pub use keys::parse_key_event;
pub use kind::SessionKind;
pub use middleware::AccessControl;
pub use middleware::Comment;
pub use pty::PtySize;
pub use server::ServerSettings;
pub use session::FinalAction;
pub use session::RemoteAddr;
pub use session::Session;
pub use session::WriteOp;
pub use sftp::DirEntry;
pub use sftp::FileAttr;
pub use sftp::LocalFilesystem;
pub use writer::SessionWriter;
