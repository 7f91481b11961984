# flowlink

The verified core of FlowLink, a tool that hands the mouse pointer from one
desktop computer to another on the same network.

- `src/` is the library, checked by Verus: the length-prefixed frame format,
  pairing codes, the peer discovery records (mDNS TXT and UDP announces) and
  the cache of peers heard recently, configuration defaults and validation,
  the recovery policy for stored files, device keys, permission and session
  models, the input back ends' decisions, and what the control panel shows.
- `tests/` exercises the library with the real outside crates linked.
- `app/` is the application around it: files, sockets, threads, logging, the
  mDNS daemon and the pointer geometry, which is floating point.
