//! The instance managers: the same strategies behind a contract without a
//! container, with callbacks in place of instance factories.

pub mod factory;
pub mod instance;
pub mod manager_stack;
pub mod prototype;
pub mod singleton;
pub mod value;

pub use factory::Factory;
pub use instance::Instance;
pub use manager_stack::InstanceManagerStack;
pub use prototype::Prototype;
pub use singleton::Singleton;
pub use value::Value;
