//! Read-only PC health diagnostics: the decision logic behind the internet
//! fault localisation (observation assessment, diagnostic lifecycle, probe
//! scheduling, incident bookkeeping) and the sensor helper protocol.

pub mod network;
pub mod sensor;
pub mod text;
