//! Decision core of an MCP tool compressor: connecting backends, proxying tool
//! calls over HTTP, normalising SDK configuration and choosing where generated
//! command-line scripts are installed.

pub mod backend;
pub mod connect;
pub mod error;
pub mod http_backend;
pub mod oauth;
pub mod outside;
pub mod paths;
pub mod proxy;
pub mod sdk;
pub mod session;
pub mod text;
pub mod timeout;
pub mod tool;
