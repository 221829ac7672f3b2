pub mod connection;
pub mod device;
pub mod file;
pub mod pair;
pub mod process;
pub mod text;
