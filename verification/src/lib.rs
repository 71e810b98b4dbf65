//! Providers: interchangeable strategies that produce a value on demand from a
//! container passed by reference, and stacks of them that can be overridden
//! and restored.

pub mod factory;
mod held;
pub mod instance_management;
pub mod lifo;
pub mod memo;
pub mod providers;
mod shared;
pub mod types;
pub mod value_factory;

pub use factory::InstanceFactory;
pub use providers::{singleton, Factory, Provider, ProviderStack};
pub use types::InstanceManager;
pub use value_factory::ValueFactory;
