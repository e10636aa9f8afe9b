//! Lookup HTTP proxies for URLs.
//!
//! A resolver answers one question: which proxy, if any, is to be used for a
//! given URL.  This crate holds the rules by which the answer is found, and
//! proofs that its functions follow them.
//!
//! - [`env`] reads proxies and no-proxy rules from the widespread
//!   `$http_proxy` family of environment variables, as the `curl` utility
//!   understands them, and matches URLs against such rules.
//! - [`environment`] is the snapshot of the process environment that these
//!   settings are read from.
//! - [`system`] layers the settings of the environment over a resolver of the
//!   operating system: rules for direct connections first, then the proxies
//!   of the environment, then the system.
//! - [`types`] defines what a resolver is, and [`noproxy`] the resolver that
//!   never names a proxy.
//! - [`unix`] reads the replies of the proxy resolvers of Unix desktops.
//! - [`uri`] models URLs, and [`text`] the operations on text that the
//!   formats above are defined by.
//!
//! The crate performs no input or output.  Reading the environment and
//! asking a system service are left to the caller, who hands over plain
//! values.

pub mod env;
pub mod environment;
pub mod noproxy;
pub mod system;
pub mod text;
pub mod types;
pub mod unix;
pub mod uri;
