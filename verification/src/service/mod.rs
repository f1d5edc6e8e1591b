//! The I/O service: the contract application endpoints implement and the
//! lifecycle rules the service applies to every connection slot.

pub mod endpoint;
pub mod io_service;
pub mod lifecycle;
pub mod lifecycle_laws;
pub mod slot;
