pub mod audio_stream_tracker;
pub mod clock;
pub mod metrics;
pub mod key_order;
pub mod text;
pub mod runtime_capabilities;
pub mod instance_registry;
pub mod plugin;
pub mod json;
pub mod stream_shared_memory_pump;
pub mod events;
pub mod config;
pub mod rpc;
pub mod host_worker;
pub mod worker_process_tree;
pub mod diagnostics;
pub mod stream_shared_memory;
pub mod worker_supervisor_error;
pub mod worker_supervisor_hello;
pub mod worker_control_frame;
pub mod control_frame_codec;
pub mod audio_route;
pub mod worker_supervisor_audio;
pub mod worker_events;
pub mod audio_in_flight;
pub mod plugin_registry;
pub mod worker_supervisor_options;
pub mod worker_response;
pub mod session;
pub mod worker_requests;
pub mod worker_supervisor_policy;
pub mod control;
pub mod component_handler_events;
