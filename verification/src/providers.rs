//! The providers: a factory, a singleton, a prototype and a stack of
//! providers, behind one contract.

pub mod factory;
pub mod provider;
pub mod provider_stack;
pub mod singleton;

pub use crate::instance_management::prototype::Prototype;
pub use factory::Factory;
pub use provider::Provider;
pub use provider_stack::ProviderStack;
pub use singleton::Singleton;

