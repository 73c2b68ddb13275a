pub mod boot_state;
pub mod bounded;
pub mod cycle;
pub mod json;
pub mod telemetry;
pub mod wire;
