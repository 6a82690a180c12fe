# basalt_widgets

Widgets for the Basalt GUI toolkit, with their logic verified by Verus.

- `src/` is the verified library: the state of each widget as a plain value, and each input
  event as a function from that state to the new state and what the display must do
  (buttons, toggle/switch/check/radio buttons, spin buttons, selects, the cursor and selection
  of a text area, keyboard modifiers and the placement rules).
- `app/` is the widget layer around it: it builds the Basalt bins, installs the input hooks,
  asks the text layout what the cursor decisions need, and draws; the `f32` geometry of the
  scroll bar, scaler and progress bar lives there too.
- `tests/` runs the library on concrete values.
