//! The backup checker behind Uptime Kuma: one check per monitored service,
//! each judging the output of a command that the caller ran for it.

pub mod backends;
pub mod enums;
