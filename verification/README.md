# mullvad_tui

The pages of a terminal front end for the Mullvad VPN daemon: what each page
shows, which of its widgets can take the focus, and what activating a widget
does. The library in `src/` is verified with Verus; `app/` connects it to a
terminal, the clock and the daemon.

## How the library is laid out

- `app` holds the state of the program, and `daemon` what the daemon reports.
- `scene` is what a page draws: a list of paint and focus operations. A page's
  `render` returns such a list, and `app/` replays it on a terminal.
- `pages` has one module for each page. `activate` runs the action bound to a
  widget. What only the daemon can do comes back as a request, and `complete`
  takes in how that request ended.
- `focus`, `geometry`, `wrap`, `components`, `text`, `text_set`, `time`, `ansi`
  and `log` are what the pages are built on.

## What is trusted

The layout solver and the line count of `ratatui`, the parser of `ansi-to-tui`
and the calendar of `chrono` are called through small wrappers in `geometry`,
`wrap`, `ansi` and `time`. The comment on each wrapper says what is taken for
granted of the call. Of the standard library, `String::push` is declared in
`text`.
