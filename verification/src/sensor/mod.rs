pub mod collector;
pub mod domain;
pub mod helper;
pub mod mock;
pub mod service;
pub mod warning;
