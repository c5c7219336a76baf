# Anvel

Anvel is a small desktop file explorer with LAN file sharing and an HTTP file
API.

## Layout

- `src/` is the library, written in Verus. Each function states in its
  contract what it returns or how it changes the explorer, and the proofs are
  checked with the code.
  - `explorer`: the explorer's state and every decision it takes (history,
    selection, clipboard, renaming, context menu, notices, LAN sharing). The
    caller reads folders and touches files when a method asks for it.
  - `listing`: the stable sort (folders first) and the search filter.
  - `format`, `labels`, `theme`: the texts, icons and colours that are shown.
  - `lan`: discovery datagrams, the peer list and the framing of a transfer,
    with a receiver state machine.
  - `server`, `commands`: the decisions and answers of the HTTP API and of the
    desktop shell's commands.
  - `paths`, `text`, `hash`: paths as text, string helpers, the share-link
    hash.
  - `laws`: properties of the library as a whole, such as "back undoes a
    move" and "a receiver reads back what a sender framed".
- `app/` is the program around the library: the egui window, file and network
  I/O, and the actix-web server.
- `tests/` runs the library on concrete values.
