pub mod config;
pub mod http;
pub mod osc;
pub mod pdradio_error;
pub mod scheduler;
pub mod sink;
