//! Marshalling between native values and the engine's tagged values, and a
//! store shared by many connection handles under a reader/writer lock.
pub mod entity;
pub mod errors;
pub mod store;
pub mod value;

pub use entity::Entity;
pub use errors::EngineError;
pub use errors::Error;
pub use errors::StoreError;
pub use store::Engine;
pub use store::Store;
pub use store::StoreConnection;
pub use store::Variable;
pub use value::Double;
pub use value::NamespacedKeyword;
pub use value::TaggedValue;
pub use value::Timespec;
pub use value::ToInner;
pub use value::ToTypedValue;
pub use value::Uuid;
