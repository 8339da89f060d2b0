# clipboard_history

A clipboard history manager for the COSMIC desktop: a daemon records what is
copied, and a panel applet and a launcher let the user search the history,
pick an entry to copy again, delete entries, and switch on a private mode.

- `src/` is the library, verified with Verus: the search over the history,
  the selection and deletion rules of the list, key bindings, capture rules,
  shortcode expansion and entry previews, each with its contract; `laws.rs`
  holds the properties that relate several operations.
- `tests/` runs the library on concrete values.
- `app/` is the program around it: the COSMIC user interface, file access
  (history JSON with file locks, the private-mode marker), `wl-copy` and
  `wl-paste`. It needs the `libcosmic` toolkit, and the Fluent catalogues
  (`app/i18n/<language>/*.ftl`, with an `i18n.toml`) that its strings are
  looked up in; neither is part of this tree.
