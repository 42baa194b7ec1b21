pub mod backend;
pub mod converters;
pub mod decoded;
pub mod laws;
pub mod service;
pub mod text;
