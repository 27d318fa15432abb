# photo_editor

A photo editor with an album of photos, non-destructive edits with undo and
redo, crops, radial masks and export.

- `src/` is the editing logic, verified with Verus: the album and its
  selection, the store of photos, the parameter history, view modes, crop
  orientation, the mouse and keyboard decisions, thumbnails and the byte
  layout of images and exports.
- `tests/` runs the library on concrete values.
- `app/` is the program around it: the iced window, the GPU pipeline, image
  decoding, the SQLite database and everything that computes with floats.
