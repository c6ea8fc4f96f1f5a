# wifi_repeater

Verified core of an ESP32-C3 Wi-Fi repeater (station + access point with
IPv4 NAPT), written in Verus.

- `src/` — the library, verified by Verus:
  - `text`: Unicode white space, trimming, string comparison.
  - `parse`: `u8`, boolean and dotted-quad IPv4 parsing with the grammar of
    the standard library's `FromStr` implementations.
  - `command`: splitting a command line, command recognition, unquoting.
  - `config`: the settings, their defaults (including build-time values),
    the choice of stored settings at start-up and the `SET` command rules.
  - `input`: the serial line editor and the idle reconnection timer.
  - `net`: texts of `HELP`, `CURL` and `PING`.
  - `wifi`: the `embedded_svc` Wi-Fi configuration built from the settings,
    static addressing and the DNS servers offered to clients.
  - `mss`: clamping the TCP MSS option of outgoing SYN segments with an
    incremental checksum update.
- `app/` — the firmware around it: ESP-IDF drivers, NVS storage (JSON via
  serde), the serial loop and the lwIP hooks.
- `tests/` — tests of the library.
