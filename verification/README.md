# desktop_pet

A pixel pet that walks along the bottom of the Windows desktop in a
borderless, colour-keyed window.

* `src/` — the verified library: the pet's behaviour (`pet`), the random
  state machine (`pet::state_machine`), frame animation (`animation`), the
  session reacting to clicks, hovering and menu commands (`app`), window
  message decoding (`input`), speech-bubble layout, reminders and the context
  menu (`interaction`), and the pixel work: RGBA/BGRA conversion, sprite-sheet
  cutting, scaled drawing into the frame buffer and white-background removal
  (`pet::entity`, `renderer`, `app`).
* `app/` — the Windows program: window creation, the message loop, GDI
  drawing, file dialogs, reading and writing images, configuration and save
  files, and the timers and positions kept in seconds and pixels.
* `tests/` — tests of the library.
