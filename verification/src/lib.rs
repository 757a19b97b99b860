//! Hosting logic of an embedded .NET runtime: the protocol that locates
//! hostfxr, initialises the runtime and obtains the managed entry point, the
//! string encodings handed to the native host, and the small records shared
//! with managed code.

pub mod fib;
pub mod wide;
pub mod c_string;
pub mod host_path;
pub mod hosting;
pub mod linux;
pub mod platform;
pub mod file;
pub mod student;
