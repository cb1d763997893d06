# callrx

Amateur radio callsign lookup for the terminal (FCC ULS data served by
callrx-service), written as a verified library with a thin command-line
program around it.

## Layout

- `src/` — the library, verified with Verus:
  - `api.rs` — the service's records, the requests made for each resource,
    what each status code means, how a device-login poll ends, and the
    Maidenhead locator of a split position.
  - `cache.rs` — the SQLite cache of records and the lookup history, with
    its laws (a read gives back what was written while it is fresh, one entry
    per callsign, history newest first, and complete whenever every row of
    the listing could be read).
  - `lookup.rs` — the decisions of a lookup around the cache: when the cache
    may answer, and what is written back and logged afterwards.
  - `display.rs` — widths, dates, ages, the record table, the plain listing,
    the history and error notes, each returned as text.
  - `alignment.rs` — why the table stays aligned: escapes take no columns,
    widths add up, every box line is as wide as the box.
  - `calendar.rs` — the civil calendar behind the date conversion.
  - `config.rs`, `auth.rs`, `hyperlink.rs`, `style.rs`, `text.rs` — service
    address and key resolution, the stored login, OSC 8 links, ANSI styles and
    text helpers.
- `tests/` — tests of the library, including the SQLite-backed cache.
- `app/` — the `callrx` program: argument parsing, HTTP, files, the
  environment, and printing what the library lays out.
