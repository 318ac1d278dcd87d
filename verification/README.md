# super_lazygit_tui

The terminal front end of a multi-repository git client: key routing, keybinding
overrides, and everything the screens show (workspace table, repository panes, diffs,
commit history, menus, prompts and confirmations), written in Verus with contracts
that state each result exactly.

Layout:

- `src/` — the verified library.
  - `keys`, `routing`, `repo_keys`, `app`: keybinding canonicalisation, the compiled
    overrides, and the router from a key press or paste to an action.
  - `model`, `selection`: what routing reads of the application state, the actions,
    and which list entry an action applies to.
  - `text`, `cells`, `labels`, `copy`, `help`: labels, table cells, prompt and
    confirmation texts, help and status lines.
  - `diff`, `commits`, `panes`, `status`, `rebase`, `menus`, `shell`, `workspace`:
    the lines of each pane and modal, with their tones.
  - `lists`: filtering and the name sort of branch lists.
  - `layout`, `theme`: screen areas (split by ratatui) and theme colours.
  - `laws`: properties that span several functions.
- `tests/` — tests on concrete values.
- `app/` — the ratatui drawing and the glue to the application state and reducer.
