//! Git smart and dumb HTTP transport: request classification, the
//! authorization gate, pkt-line framing of ref advertisements and the
//! response rules for statically served repository files.
//!
//! Every function here works on plain values. Reading files, running the
//! pack-protocol subprocess and speaking HTTP are left to the embedding
//! server, which hands in what it found and carries out what comes back.

pub mod config;
pub mod credentials;
pub mod exchange;
pub mod files;
pub mod gate;
pub mod handler;
pub mod operation;
pub mod pktline;
pub mod relay;
pub mod response;
pub mod router;
pub mod text;

pub use config::{ActixServerArgs, GitHttpConfig};
pub use gate::{AuthInput, GitConfig};
pub use handler::ActixGitHttp;
pub use operation::GitOperation;
