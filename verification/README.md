# nuhxboard

The verified core of an on-screen keyboard and mouse visualiser: it keeps
which keys, mouse buttons and scrolls are shown, which windows are open, and
the user's settings, and decides what each input event, window event or menu
choice does.

- `src/code_convert.rs` maps keys and mouse buttons to the codes the keyboard
  layouts use.
- `src/model.rs` describes the board as a mathematical value and what each
  message does to it (`BoardModel::step`).
- `src/board.rs` is the executable board; `NuhxBoard::update` is proved to
  behave as `step` says, and answers with the outside work to do (open a
  window, read a directory, load a file, wait and send a message).
- `src/laws.rs` proves what holds across messages.
- `app/` is the graphical application around the board: windows, the input
  listener, files, the clock, and the mouse speed, which is computed in
  floating point.
