//! Verified core of the rjs JavaScript environment: the value store and
//! class registry behind the event loop, the native-function calling
//! conventions, and the values that scripts see for window-system events
//! and GL queries.

pub mod jslib;
pub mod script;
pub mod text;
pub mod webgl;
pub mod window;
