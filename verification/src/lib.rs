//! A smart-meter telemetry bridge: locates two measurement fields inside
//! decoded SML messages by their OBIS identifiers, converts the tagged
//! readings with their decimal scalers into exact decimal quantities, and
//! renders them as a metrics exposition document.

pub mod decimal;
pub mod metrics;
pub mod pipeline;
pub mod sml;
