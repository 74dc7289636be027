pub mod isolate_channel_error;
pub mod isolate_error;
pub mod isolate_runtime_error;
