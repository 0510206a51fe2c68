//! A handler that serves one directory over HTTP, for browsing and for
//! download.
//!
//! The handler decides and reads nothing itself. A caller hands it a request
//! as plain values, and with it what it found in the file system along the
//! path that the request names; the handler says which response is owed:
//! a file, the listing of a directory, or an error page. The search for a
//! free port to listen on is decided here in the same way, one attempt at
//! a time.

pub mod error;
pub mod http;
pub mod listing;
pub mod mime;
pub mod ops;
pub mod options;
pub mod path;
pub mod percent;
pub mod ports;
pub mod snapshot;
pub mod template;
pub mod text;

pub use error::Error;
pub use ops::{try_ports, HttpHandler};
pub use options::{HostedDirectory, Options, Templates};
