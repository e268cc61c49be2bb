# OpenConnect VPN GUI

A graphical client for OpenConnect-compatible VPNs. The library (`src/`) is
verified with Verus; the window (`app/`) is egui code around it.

- `src/domain`: connection states and the main action, protocols, server
  address and user name validation, credentials, and the password held in
  `zeroize::Zeroizing`.
- `src/application`: the backend's error type and the session port.
- `src/infrastructure`: the OpenConnect command line, the reading of the
  processes' output and of `/proc` and PID files, and the outcome of each
  step of connecting and disconnecting.
- `src/ui`: the window's state machine (`ConnectionController`).
- `src/i18n`: the window's texts in English (the default), Portuguese,
  Japanese and Mandarin.
- `src/text`: Unicode whitespace, trimming, word splitting, ASCII
  lowercasing, substring search and decimal parsing over characters.
- `app/`: `main`, the egui window, the theme and widgets, and the adapter's
  processes, files and threads, and the language selector.
