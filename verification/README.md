# dakal_tls

The decision core of a desktop VPN client that drives a sing-box process.

The library in `src/` decides; the application in `app/` acts. The application
owns the process, its threads, the files, the network and the window. It reports
what it sees, and performs the effects and actions that the library hands back.

| module       | what it decides                                                  |
|--------------|------------------------------------------------------------------|
| `manager`    | the tunnel's lifecycle: start, stop, polls, drops, reconnecting  |
| `launch`     | the steps of a startup, from locating sing-box to a live tunnel  |
| `startup`    | the validation run, the wait for an end, the log's lines         |
| `vpn_config` | the configuration file of sing-box                               |
| `dns`        | what a lookup of the server's host name comes to                 |
| `classify`   | what a technical error is reported as                            |
| `binary`     | where sing-box is found, and how a release is unpacked           |
| `status`     | the status report, the log's tail and the uptime                 |
| `traffic`    | traffic counters and their growth                                |
| `ping`       | what a round trip is reported as                                 |
| `settings`   | profiles, presets and settings                                   |
| `tray`       | the tray icon's tooltip and menu                                 |
| `events`     | lifecycle states, events for the frontend, effects               |
| `json`       | JSON values of `serde_json`, and the tree that contracts use     |
| `text`       | operations on text                                               |
| `laws`       | what holds of the library as a whole                             |

Everything in `src/` is verified with Verus. What it takes from `serde_json`,
`zip`, `reqwest`, `anyhow` and std on trust stands in small functions marked
`external_body`, each with a contract and a comment that says what it claims.

The rate of the traffic is computed in the application, in floating point, from
the growth that `traffic` reports.

Switching the system to DNS over HTTPS is not part of this application.
