pub mod deep_link;
pub mod error;
pub mod grpc;
pub mod grpc_channel;
pub mod grpc_course;
pub mod grpc_run;
pub mod grpc_session;
pub mod http;
pub mod http_send;
pub mod import;
pub mod key_map;
pub mod keys;
pub mod merge;
pub mod models;
pub mod plugins;
pub mod sse;
pub mod text;
pub mod toast;
pub mod uri;
pub mod window;
