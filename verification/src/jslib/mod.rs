pub mod context;
pub mod eventloop;
pub mod globals;
pub mod jsclass;
pub mod jsfn;
pub mod threadbound;
pub mod upcast;
