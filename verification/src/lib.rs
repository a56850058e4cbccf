//! The request pipeline of a configuration-driven reverse proxy: path
//! normalisation, route lookup, method validation, construction of the outbound
//! request and assembly of the response, each with a proved contract.

pub mod config;
pub mod error;
pub mod handler;
pub mod headers;
pub mod method;
pub mod path;
pub mod record;
pub mod target;
pub mod text;

pub use config::Config;
pub use error::HandlerErr;
pub use record::Record;
