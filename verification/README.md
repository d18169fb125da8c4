# qonductor_verified

A Qobuz Connect renderer library whose protocol core is specified and
proved with Verus.

- `src/` is the verified library: envelope framing and varints (`wire`),
  the QConnect message model (`proto`), reading envelopes and numbering
  outgoing messages (`transport`), the session state machine (`session`),
  the device table and the answers of the discovery endpoints
  (`discovery`), scanning the web player for credentials (`credentials`),
  device configuration (`config`), message and envelope inspection
  (`connection`), and the calls into base64, md-5, uuid and std
  (`wrappers`).
- `app/` is the plumbing around it: the WebSocket (tokio-tungstenite), the
  HTTP server (axum), mDNS (zeroconf-tokio), the HTTP client (reqwest),
  protobuf encoding (prost), the error type (thiserror) and the session
  manager's event loop.
- `tests/` exercises the library on concrete values.
