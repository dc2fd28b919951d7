# netpulsar

Packet-capture decisions and DHCP vocabulary, verified with Verus.

- `src/` — the verified library:
  - `dhcp` — DHCP operation codes and hardware types (decoding and encoding
    proved inverse), and the DHCP message record.
  - `net` — MAC and IP address values.
  - `time` — spans of time as seconds and nanoseconds.
  - `options` — capture options, their defaults, and interface lookup.
  - `filter` — the packet filter over the headers of a captured frame, and
    its laws.
  - `capture` — the capture session: parse option per interface, frame
    parsing and the headers a frame holds, report
    counting, stop decision.
- `app/` — the capture loops over a live interface (reading packets, sending
  frames on std, crossbeam and tokio channels), and the serializable option
  and report types.
- `tests/` — tests of the library on concrete values.
