# browser_mcp

Browser automation over the Chrome DevTools Protocol, as a verified library and a program around
it. The library decides, the program carries out: every operation of `BrowserManager` is a small
state machine that asks for one action at a time and is resumed with the event that answers it.

- `src/browser.rs` and `src/browser/`: the manager with its sessions, tabs, contexts, input,
  waits, pages, scripts, routes and traces; `laws.rs`, `outcomes.rs` and `isolation.rs` hold what is
  proved of the manager as a whole, of whole runs of its operations and of whole histories of its
  contexts.
- `src/step.rs`: actions, events and steps.
- `src/mcp.rs`, `src/tools.rs`, `src/rpc.rs`: the tool server and the dispatcher of the program.
- `src/json.rs`, `src/text.rs`, `src/scripts.rs`, `src/process.rs`, `src/error.rs`: values, text,
  the scripts that run on pages, the browser process and the errors.
- `app/`: the program, which talks to the browser, the file system and standard input and output.
- `tests/`: the library on concrete values.

The contracts are checked with [Verus](https://github.com/verus-lang/verus).
