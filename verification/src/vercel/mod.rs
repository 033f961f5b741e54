pub mod artifact;
pub mod constants;
pub mod remote_client;
pub mod utils;
