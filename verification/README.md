# rqsrv

Tools for the Royal Quest game protocol, with the protocol logic verified
by Verus.

- `src/` is the verified library: the RC4-like stream cipher and the RSA key
  exchange (`rc4`, `cipher`), the tagged element formats (`rqode`,
  `rqode_binrw`) and the packet structures (`protocol`), stream framing and
  filtering for the intercepting proxy (`mitm`), the readable text of
  values and packets (`dump`, `protocol_dump`), packet dissection and the
  tracer's filter settings (`packet_view`, `ptrace`, `mitm_gui`), and the
  game server's request handling, chat commands, connection state and
  location updates (`server_*`).
- `app/` is the program around it: a SOCKS5 proxy on 127.0.0.1:8008 that
  either relays the game's connection through the library (`mitm` mode) or
  answers it with the built-in server (`server` mode), plus the settings
  file.
- `tests/` exercise the library on captured packets and concrete flows.
