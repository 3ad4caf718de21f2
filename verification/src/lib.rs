//! A minimal wrapper around a platform's native DNS-SD (DNS Service
//! Discovery) registration facility.
//!
//! Given a service instance name, an optional hostname, a port and a set of
//! TXT-record key/value pairs, [`Service::register`] asks the platform to
//! publish a discoverable network service and returns an opaque [`Service`]
//! handle that stands for the live registration, or a typed [`Error`].
//!
//! The platform itself is reached through the [`platform::Platform`]
//! interface, so the registration logic — error taxonomy, status-code
//! translation, attribute-mapping semantics — is independent of any one
//! operating system. An in-memory double, [`platform::StubPlatform`],
//! implements the interface inside this crate; a real adapter lives with the
//! host application.

pub mod error;
pub mod hostname;
pub mod platform;
pub mod service;
pub mod status;
pub mod txt;

pub use error::Error;
pub use hostname::Hostname;
pub use platform::Platform;
pub use platform::StubPlatform;
pub use service::Service;
pub use txt::TxtRecords;
