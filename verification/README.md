# hyprsnap

A screenshot annotation editor for Hyprland: draw rectangles, lines, arrows
and text over a screenshot, read text out of a region, then save or copy the
result.

- `src/` is the verified library (Verus):
  - `tools.rs`: tools, palette colours, annotations;
  - `editor.rs`: the editing state machine (drags, text entry, undo, style
    changes) with its laws;
  - `shortcuts.rs`: keyboard shortcuts of the editor and the text dialog;
  - `args.rs`: the command line;
  - `geometry.rs`: the editor window's size and the region read by OCR;
  - `pixels.rs`: RGBA pixels laid out as a Cairo ARGB32 surface;
  - `ocr.rs`: what becomes of the recogniser's output;
  - `output.rs`: where the annotated image is saved.
- `app/` is the GTK 4 and Cairo program around it: windows, widgets,
  drawing, files, and the external `tesseract`, `wl-copy`, `notify-send`
  and `hyprctl` commands.
- `tests/` exercises the library on concrete values.
