# node_monitor

Monitors a local blockchain node against the nodes of its cluster and reports,
on `GET /health`, whether it is synced (200), catching up or stopped (503).

- `src/` is the verified library: the record types, the round-recording rules
  (`store`), one poll of the nodes as a state machine (`fetch`), the health
  answer (`health`), file and endpoint names (`paths`), command-line options
  (`cli`), and the properties proved across them (`laws`). Calls into chrono
  and reqwest stand behind `clock` and `header`.
- `app/` is the program: argument parsing, settings and data files, HTTP calls,
  the timer and the web server.
