# tran

A terminal translator and dictionary: `tran word` prints a dictionary card,
`tran "a sentence"` a translation card, `tran --history` / `--favorites` the
stored queries, and `tran i` opens a two-pane interactive interface.

The decisions of the program live in the library under `src/`, written in
Verus and proved against their contracts:

- `text`, `width`: character-level text handling, display widths, truncation
  and wrapping (with the law that wrapped lines fit their width);
- `json`, `google`, `microsoft`, `dict`: what is sent to the services and how
  their answers are read; when a word goes to the dictionary first;
- `theme`: theme modes, palettes and the detection of the terminal theme;
- `history`, `cache`: the records kept and the in-memory result cache;
- `keys`, `app_state`: key bindings and the state of the interface, with the
  lifecycle of searches (laws about cancelled and superseded searches);
- `layout`, `view`, `screen`, `card`: the sizes, labels and styled lines that
  the screens and command-line cards show;
- `cli`: what the program does for its arguments.

`app/` holds the program around it: argument parsing, HTTP requests, the
SQLite store, terminal drawing and the event loop. `tests/` exercises the
library on concrete values.
