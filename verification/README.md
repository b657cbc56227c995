# color_picker_panel

The decisions of an inline saturation/value and hue colour picker panel,
verified with Verus.

- `src/` is the verified library: the channel routing of pointer updates
  (`hsv`), the HSV to RGB sector table (`sector`), the keyboard mapping
  (`keyboard`), the hue strip segments (`hue_strip`), drag payloads (`drag`)
  and the panel's answer to each input event (`events`).
- `app/` is the gpui front end: rendering, event plumbing and the f32 colour
  arithmetic, which call into the library for every decision above.
- `tests/` runs the library on concrete values.
