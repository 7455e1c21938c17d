# hinjaku

A lightweight viewer for images, folders and ZIP archives, built around a library
whose behaviour is specified and proved with Verus.

## Layout

- `src/` — the verified library. Its functions carry `requires`/`ensures`
  contracts over mathematical models (`Seq`, `Map`, `Set`, spec functions), and the
  laws that span several functions are public proof functions (`law_*`).
  - `config`, `settings`, `settings_laws`, `ini_store`, `keymap_store`: the settings
    model and its INI form. That saved settings read back as themselves is proved over
    the sections of the `ini::Ini` value; turning those sections into text and back is
    left to rust-ini (which, for one, trims spaces around values).
  - `keys`, `key_names`, `commands`, `labels`, `conflicts`: key bindings (a captured
    combination triggers exactly on its key), what a frame's input asks for, and
    bindings that clash.
  - `manager`, `cache`, `paging`, `sorting`, `natural`, `nav_tree`, `path_map`: the
    listing, page turning, prefetch and texture-cache bookkeeping, stable sorting in
    natural order, and the folder tree.
  - `decoding`, `image_ops`, `animation`: what an entry's bytes decode to (through the
    `image` crate), which entries animate, frame delays, rotations and their inverses.
  - `window_mode`, `dialogs`, `status`, `toast`, `history`, `cycles`, `rotation`,
    `file_kinds`, `launch`, `startup`, `text`: smaller decisions and helpers.
- `tests/` — ordinary Rust tests against the library.
- `app/` — the program: window, drawing, input events, file system and archive
  access, worker threads, scaling (floating point), launching other programs. It hands plain values to
  the library and carries out what the library decides.

## Building

The library is verified by running Verus on `src/lib.rs`; the tests and the
program build with the ordinary Rust toolchain.
