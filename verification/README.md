# textamp

The verified core of the Textamp music player's front-ends: the terminal
interface (ratatui) and the desktop interface (iced). What the two
front-ends decide, compute, parse or format lives in `src/` and is proved
with Verus against `requires` / `ensures` contracts stated over
mathematical models (`Seq`, `Set`, `int`, and a view of each type).

## Layout

- `src/` — the library, one module per concern:
  - text and numbers: `strings`, `text` (display-safe text, trimming,
    middle truncation), `timefmt` (clocks and ages), `transport`
    (terminal transport line, width-aware truncation, filter box), `tui`;
  - parsers: `ansi` (ANSI artwork and the About banner), `markdown`
    (the User Guide reader), `tools` (the track-count field);
  - browsing: `browse` (rows of a Miller column), `column` (its header
    and listed rows), `miller` (clicks, multi-selection, focus, the
    details pane, paging), `folders` (the Folders category), `category`,
    `layout` (virtualized rows, scrolling, which columns fit),
    `selection`;
  - menus and popups: `menu_bar`, `menus`, `ctxmenu` (which entries a
    right-click menu offers), `menucmd` (what each entry runs),
    `dialogs`, `popup`, `nav`, `window` (the window's layers), `search`,
    `stations`, `pickers`, `details`, `account`;
  - settings: `cacheinfo` (the cache table);
  - playback: `playback` (track-end detection, audio retries), `queue`
    (click/drag interaction and row text), `pick`, `viz`, `vectorscope`,
    `artcache` (memo of decoded artwork handles, lazy-art gate).
- `tests/` — scenarios on concrete values for every module.
- `app/` — glue for the toolkits: color and key conversions, the
  process-wide artwork memo, and the helpers that work in floating point.

Public `proof fn lemma_*` items state the library's laws: for example that
a revealed row is on screen, that Escape closes exactly the frontmost
overlay, that search results are numbered in display order, that every
menu entry offered runs a command, or that the native menu bar mirrors
the in-window menus.
