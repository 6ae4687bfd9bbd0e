# kuma_services

The decision logic of a few home-lab monitoring services, verified with
Verus:

- `pve_proxy`: the `/backups` status of the Proxmox proxy (newest `vzdump`
  task within the last day).
- `backup_checker`: the Uptime Kuma backup checks (Proxmox tasks, and the
  Pi-hole and pfSense cron jobs found in the journal).
- `kuma_filter`: which Uptime Kuma notifications reach Pushover, and with
  what text.
- `kuma_relay`: where recognised webhooks are pushed, and the health body.
- `logtail`: the layout of a log line.
- `clock` and `text`: timestamps, whitespace, substring search, UTF-8 and
  JSON helpers.

`app/` holds the servers themselves (axum, tokio, reqwest, sqlx, fern,
clap): they run commands, parse JSON with serde and talk to the network,
and hand the library plain values.
