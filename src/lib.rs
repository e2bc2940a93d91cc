//! Instrumentation core of a bytecode execution engine: inspectors that
//! observe execution events, handlers whose slots registrants wrap, and a
//! gas-accounting inspector.
pub mod gas;
pub mod gas_inspector;
pub mod handler;
pub mod inspector;
pub mod register;
pub mod result;

pub use gas_inspector::GasInspector;
pub use handler::Handler;
pub use inspector::Inspector;
pub use register::{ExternalData, InspectorHandle, MainnetHandle, RegisterHandler};
