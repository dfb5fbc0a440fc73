# aether

Performance settings, egress TCP tuning and DNS-over-HTTPS rules of a network
core, verified with Verus.

- `src/` is the library. `sysprofile` turns what a host tells of itself and the
  `AETHER_*` environment variables into the settings of a run; `tcp_tuning` says
  what is asked of a socket and counts what was accepted; `doh` holds the rules of
  a resolution over HTTPS; `environment` and `text` are what those are built on.
- `app/` reads the process environment and the machine, sets the socket options
  and carries the HTTPS exchange.
- `tests/` runs the library on concrete values.
