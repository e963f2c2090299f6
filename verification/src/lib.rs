pub mod domain;
pub mod text;
pub mod ports;
pub mod adapters;
pub mod application;
