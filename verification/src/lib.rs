//! A small dependency container: strategies for producing values are
//! registered per type, and values are later resolved by type, locally first
//! and then through the parent scopes.

pub mod construct;
pub mod constructor;
pub mod container;
pub mod key;
pub mod laws;
pub mod registration;
pub mod service_locator;
pub mod singleton;
mod table;

pub use construct::Construct;
pub use construct::ConstructAs;
pub use constructor::Constructor;
pub use container::Container;
pub use container::Error;
pub use container::GetConstructor;
pub use container::Resolver;
pub use registration::Registration;
pub use service_locator::Locator;
pub use singleton::Singleton;
