pub mod constants;
pub mod devices;
pub mod framer;
pub mod session;
pub mod server;
pub mod tools;
