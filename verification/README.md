# web_pointer

Pointer input for a browser canvas, verified with Verus.

`src/` holds the decisions behind a canvas's pointer listeners, each with a
contract proved by Verus:

- `types`: the plain values read from a DOM pointer event and the reports
  made of it;
- `buttons`: decoding the DOM `button` value, button ids and the bits of the
  `buttons` mask;
- `events`: what a `pointerover`/`pointerout`, `pointerdown`, `pointerup`
  and `pointermove` stand for, and what the canvas must do with them;
- `handler`: the set of listeners a pointer handler holds;
- `laws`: properties that relate these functions.

`app/` is the browser glue (web-sys): it reads the events, performs the
actions that the library decides, and attaches the floating-point parts of
each report (position, pressure, pen tilt).
