# ddc_ci_daemons

The verified core of a pair of DDC/CI display-control daemons (a D-Bus service and a
varlink service built on libddcutil).

- `src/` is the library, verified with Verus:
  - `backend` — plain records of what the display backend reports, and how its
    failures are turned into D-Bus reply fields;
  - `edid` — the standard base64 text form of EDID blocks;
  - `service` — the D-Bus methods and properties; the methods that need the backend
    are small state machines that name the next backend call or the reply;
  - `vcp_requests` — `GetMultipleVcp` (lookup, open, one read per code) and
    `SetVcp`/`SetVcpWithContext` (lookup, open, write) as state machines;
  - `events` — hotplug/DPMS events and VCP change broadcasts;
  - `polling` and `polling_laws` — the connectivity poller that compares successive
    display scans, and what its decisions amount to;
  - `shared_state` — the configuration shared with the poller and the decisions
    taken on it (starting/stopping the poller, event watching, each poll's first step).
- `app/` is the daemon around it: D-Bus and varlink plumbing, threads, sleeps,
  logging, the environment, and the calls into libddcutil.
- `tests/` runs the library on concrete values.
