# snapper_keeper

The verified core of a desktop screenshot and clipboard-history utility,
written in Verus. `src/` holds the logic with its contracts and laws; `app/`
holds the process around it (serde wire forms, settings parsing, the
clipboard polling thread, the command handlers, crash dumps, popup placement
in floating point).

Main areas:

- clipboard watcher: the decision cycle for each observed clipboard change
  (`watcher`), the own-write skip set (`skip_set`), per-change admission and
  retry backoff (`observation`), content hashing (`digest`, `hasher`),
  sensitivity flags and the app blocklist;
- pasting back into the previous application (`paste`);
- screen capture: monitor and window selection, region clamping and
  cropping, PNG encoding, the held preview and its tokens (`grab`,
  `preview`, `xcap_adapter`, `macos_sck`, `window_hider`);
- validation of annotation payloads (`annotate`) and application-shell text
  (`shell`, `hotkeys`, `runtime_identity`).

Outside crates (`sha2`, `image`, `arboard`, `uuid`) are called through small
trusted wrappers whose contracts are documented where they are declared.

Where a flow interleaves its decisions with work that only the application
around it can do (history storage, reading files, giving focus back,
posting key events, capturing a monitor), that work goes through a host
trait (`watcher::Store`, `paste::PasteHost`, `preview::PreviewHost`). A
host keeps the record of the calls made on it, each with the answer it
gave; the flows' contracts state which calls are made, in which order and
with which arguments, and what the flow returns for every answer.
