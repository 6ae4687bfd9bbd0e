//! Decision logic of a small set of home-lab monitoring services: backup
//! freshness checks for Proxmox and cron-driven backups, the Uptime Kuma
//! notification filter, the webhook relay and the log line layout.

pub mod clock;
pub mod text;
pub mod pve_proxy;
pub mod backup_checker;
pub mod kuma_filter;
pub mod kuma_relay;
pub mod logtail;
