//! Decision logic of a VEX V5 motion-control library: exit-condition timing,
//! PID integral gating, take-back-half gain scheduling and motor-group voltage
//! passes, each stated and proved over integer and boolean models.
pub mod manager;
pub mod motor_group;
pub mod pid;
pub mod tbh;
pub mod time;
