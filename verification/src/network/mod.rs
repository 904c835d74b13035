pub mod collector;
pub mod domain;
pub mod incident_recorder;
pub mod incident_store;
pub mod observation;
pub mod runtime;
pub mod service;
pub mod state_machine;
pub mod unsupported;
pub mod windows;
