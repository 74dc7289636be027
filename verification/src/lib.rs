mod errors;
mod isolate;
mod isolate_channel;
mod isolate_registry;
mod isolate_runtime;

pub use errors::isolate_channel_error::IsolateChannelError;
pub use errors::isolate_error::IsolateError;
pub use isolate::Isolate;
pub use isolate_channel::IsolateChannel;
pub use isolate_channel::timeout_error_of;
pub use isolate_runtime::IsolateRuntime;
pub use isolate_runtime::isolate_identity::IsolateIdentity;
pub use isolate_runtime::isolate_runtime_error::IsolateRuntimeError;
pub use isolate_runtime::isolate_runtime_ref::IsolateRuntimeRef;
pub use isolate_runtime::isolate_runtime_wait::IsolateRuntimeWait;
pub use isolate_registry::IsolateRegistry;
pub use isolate_registry::isolate_registry_error::IsolateRegistryError;
pub use isolate_registry::isolate_registry_ref::IsolateRegistryRef;
