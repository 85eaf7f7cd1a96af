# nami

A keyboard-driven terminal web browser whose core is verified with Verus.

## Layout

- `src/` — the verified library:
  - `text`, `sort` — character-level string operations and stable ordering,
    with their specifications.
  - `url_util` — URL resolution, normalisation of typed input, encoding,
    display.
  - `dom`, `sink` — the document tree, its queries, and the node arena that
    the HTML tree builder fills.
  - `css` — stylesheets (parsed by lightningcss), selector matching,
    specificity and the cascade of keyword properties.
  - `render` — styled lines, ANSI output, tab and status bars.
  - `transform` — DOM transforms applied after parsing.
  - `tabs`, `history`, `bookmarks`, `content_blocking`, `input` — browser
    state and keyboard handling.
  - `browser` — the browser's decisions: actions and commands map to a new
    state and an effect for the front end to carry out.
  - `config`, `fetch`, `layout`, `scripting`, `clock` — configuration
    records and paths, fetch results and errors, layout errors, script hooks,
    the clock.
- `app/` — the command-line front end: argument parsing, configuration
  file, HTTP (reqwest), HTML parsing (html5ever), layout (taffy) and the
  floating-point part of styles.
- `tests/` — tests of the library.

Laws of the library are stated as public proof functions named `law_*`.
