# mirl_console

A window backend that draws into the console. The library (`src/`) is
verified with Verus:

- `keys`: the terminal's key codes, the window's key codes and the mapping
  between them (`crossterm_to_keycode`);
- `mouse`: the terminal's and the window's mouse buttons (`button_to_index`);
- `events`: terminal input events and what each does to the keys and
  buttons that are down;
- `frame`: the text frame the window prints;
- `window`: the window state (`Framework`) and its operations;
- `laws`: properties of the above that hold for all inputs.

`app/` holds the terminal I/O through crossterm: enabling mouse capture,
polling and reading events, reading the console size, clearing the screen and
printing frames, and the floating-point fitting of the frame to the console.
