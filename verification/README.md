# delay_vst

A replica of a delay plugin's front panel, drawn with egui/eframe.

- `src/` is the verified library: the panel's switches and tempo selector
  (`controls`), the colours that follow from their state (`palette`), the
  level meters' segments (`meter`) and the wireframe logo (`geometry`).
- `app/` is the eframe application: it draws the panel, turns clicks and
  drags into control events for the library, and keeps the continuous
  values (knobs, meter levels, drag distances), which are floating point.
- `tests/` exercises the library on concrete values.
