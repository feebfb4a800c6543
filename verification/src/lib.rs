//! A webhook listener core: turns inbound HTTP webhook notifications from
//! source-control platforms into validated, typed deliveries routed to
//! registered hooks.

pub mod constructor;
pub mod crypto;
pub mod handler;
pub mod headers;
pub mod hook;
pub mod json;
pub mod text;

pub use constructor::Constructor;
pub use handler::Delivery;
pub use handler::Handler;
pub use headers::Headers;
pub use hook::Hook;
pub use hook::HookFunc;
