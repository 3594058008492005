# ger

The core of `ger ui`, an interactive terminal browser of Gerrit changes, as a library
whose behaviour is stated in contracts and proved.

- `src/`: the library. Rectangles of the terminal grid (`rect`, `border_box`), window
  boxes and their hints (`winbox`, `draw::winbox`), tables with line numbers, scrolling
  and selection (`table`, `draw::table`), lists and scroll bars (`list`, `scroll`), the
  details and the table rows of Gerrit changes (`changes`), the decisions of the event
  loop (`tui`) and the validation of command line values (`util::validate`). Drawing
  appends terminal commands (`command::Command`) to a buffer.
- `app/`: the program: command line, terminal, entity registry of the windows, clock,
  and the source of the changes.
- `tests/`: tests of the library.
