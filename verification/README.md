# autocampnet

The logic of a tray application that keeps a machine logged in to a campus
network's captive portal and watches the account's daily data allowance,
written in Verus and proved against its contracts.

- `src/` is the verified library:
  - `text` — splitting, searching, trimming and decimal rendering over character sequences;
  - `data` — credentials, traffic units, usage states and notices;
  - `notification` — the notices for login outcomes and saved credentials;
  - `portal` — the requests sent to the portal and the reading of its replies
    (login outcome, session cookie, CSRF token via `regex`, credential check);
  - `traffic` — the traffic table of the account page (via `tl`) and usage warnings;
  - `tray`, `launch` — tray icons and menu, logout outcome, start-up helpers;
  - `connect`, `monitor` — the login loop and the traffic loop as step functions
    from event to action;
  - `laws` — properties proved across these functions.
- `app/` runs the loops: HTTP with `reqwest`, timers, the desktop shell, files.
- `tests/` exercises the library on concrete values.
