# batring

A desktop control panel for local development services managed by systemd
(PostgreSQL, Docker, MongoDB): start, stop, restart, enable and disable them
one at a time or all at once.

## Layout

- `src/` is the verified library.
  - `commands.rs`: the fixed service registry, id resolution, and every
    operation offered to the user interface. An operation is a task that names
    the next `systemctl` run it needs (`request`) and takes the reply into
    account (`resume`) until it has its result (`outcome`).
  - `systemd.rs`: the exact argument lists handed to `systemctl`, the
    classification of what it prints, and the two per-unit steps: reading a
    unit's state and applying a mutation (always after an unprivileged check
    that the unit exists).
  - `models.rs`: the values exchanged with the user interface.
  - `text.rs`: decoding, trimming, lowercasing and searching program output.
  - `laws.rs`: properties that span operations, proved once for all inputs.
- `app/` is the Tauri application: it runs `systemctl` for each request a
  task names, and serializes results to the web front end.
- `tests/` runs the library on concrete values, with scripted `systemctl`
  replies in place of a real system.
