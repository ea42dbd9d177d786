# defudelog

A log analysis and data-leak detection library, verified with Verus, and the
service around it.

- `src/` is the verified library. It parses log lines into templates,
  evaluates detection rules and built-in DLP signatures, correlates bursts of
  events, fuses the detection axes into a risk score and an alert level,
  explains log lines in plain French, routes and authorises the requests of
  the local-network console, reads syslog lines, plans how each kind of source
  is collected, and decides the queries, pages and summaries of the store.
  Calls into `regex`, `sha2`, `chrono`, `rand` and `serde_json` stand behind
  small trusted wrappers whose contracts name what those crates return.
- `tests/` runs the library on concrete inputs.
- `app/` is the service: SQLite storage, file and process collection, the
  syslog and console listeners, outgoing HTTP calls and the command layer. It
  holds serialisable copies of the library's types and converts both ways.

Scores are fixed-point integers in the library: basis points for component
scores and parts per million for the composite risk.
