# apeclaw

Sri Lanka knowledge for the ApeClaw agent, verified with Verus.

- `src/` — the verified library: the holiday and Poya calendar with its
  date advisories, visa (ETA) eligibility, rail routes and tips, SLTDA
  operator search requests, monsoon seasons and advisories, the request URLs
  and fallback records of the government services, and the audit log line
  format. `src/text.rs` holds the character-level operations they share
  (trimming, ASCII case folding, substring search, percent-encoding).
- `app/` — the I/O around it: HTTP lookups (reqwest), the JSON forms of the
  records (serde), the float-valued market and weather data, and the audit
  log writer.
- `tests/` — tests of the library.
