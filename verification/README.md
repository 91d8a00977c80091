# snip — verified core

The logic of the `snip` snippet manager, written in Verus and proved against
its contracts: theme colours and base16 schemes, exact contrast arithmetic,
theme checks and resolution, the choice of the interface's theme and the
theme list, syntax themes (embedded or derived from a
palette), snippet ordering and the list's selection and scrolling, the
preview's fragment and README targets, the command registry, the help
overlay (text wrapping, layout, frame, filtering, selection and scrolling),
the bottom bar's prompts, messages and shortcut pills (which row of pills
fits), the dialogs (what a key does in one, and what confirming one
changes), the git badge and console text, the gist badge and panel text, and the decisions behind library
operations (the checks before a change, the fields an edit changes, a new
snippet's options, a replaced manifest, tag renames, fragment selection and reordering, folder
names, the health report).

Layout:

- `src/` — the verified library (`snip`). Each module states its behaviour
  as spec functions and proves its executable code against them; the laws
  that span functions are public proof functions named `law_*`.
- `tests/` — ordinary Rust tests of the library on concrete values.
- `app/` — the unverified shell: theme files and TOML, the environment, the
  clipboard, the file watcher, serde and clap forms of library types, and
  the floating-point colour measures.

Calls into other crates (`two-face`, `syntect`, `nucleo-matcher`,
`unicode-width`, `shlex`) and into parts of std that Verus does not
model go through a few small wrappers whose contracts are trusted; each one
says in its doc comment what it claims. Text widths come from
`unicode-width`, the crate the terminal renderer measures with, so the
help overlay and the bar lay out text where the screen draws it.
