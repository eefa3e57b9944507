//! A logging layer of the crate's own: a service around a service, a future
//! around its future and a body around the request's body, each of which
//! looks at what passes and changes none of it.

pub mod body;
pub mod future;
pub mod logger_impl;
pub mod service;

pub use body::LoggingBody;
pub use future::LoggingFuture;
pub use logger_impl::Logger;
pub use service::{LoggerLayer, LoggerService};
