# openvpn3-gui-rs

A tray program for OpenVPN3 on Linux: it connects configurations, follows the
sessions, asks for credentials, keeps them in the keyring, guards sessions with
a kill switch, and routes chosen networks outside the tunnel.

## Layout

- `src/` is the library. It holds every decision of the program as a function
  on plain values, with a contract that Verus proves: what a status report
  changes and what is done about it, when a session is reconnected, who keeps
  the firewall up, which values may be stored, how a secret is looked up and
  moved, what the windows show, and what the user is told. Functions named
  `law_...` state what holds across several of them.
- `tests/` runs the library with the real outside crates.
- `app/` is the program around it: the bus, the keyring, the tray, the windows
  and the timers. It reads, hands plain values to the library, and does what
  the library answers.

## What is not proved

The library calls a few functions of the outside crates and of std behind
items marked `external_body` or `assume_specification`; the comment above each
says what it relies on. `app/` is ordinary Rust.
