//! Control plane of a small two-processor wheeled robot: the framed command and
//! telemetry link, sensor fusion, closed-loop control and the mode supervisor.
pub mod command;
pub mod control;
pub mod device;
pub mod distance;
pub mod drivers;
pub mod framing;
pub mod message;
pub mod pid;
pub mod supervisor;
pub mod telemetry;
