# void_editor

A canvas editor: a window shows a document of shapes that can be selected
with clicks or a selection rectangle, dragged, reordered, removed, panned
and zoomed. Its window and renderer are configured from an INI file that is
read again when it changes on disk.

## Layout

- `src/` is the verified library (Verus):
  - `document.rs`: the elements in paint order, kept in an `IndexMap`
    keyed by element id, with ids drawn from a counter; reordering and
    removal, and the laws they keep.
  - `editor.rs`: the editor's decisions: tool, selection, what keys,
    mouse buttons, cursor moves and the wheel do, and what the window has
    to do in answer.
  - `config.rs`, `settings.rs`, `ini.rs`, `text.rs`: the renderer and
    window settings, their defaults and meaning, and reading them from INI
    text with the `configparser` crate.
  - `session.rs`: clients attached to a shared editor, each with a view.
  - `style.rs`, `element.rs`: paint styles and resize handles.
- `app/` is the program around it: the winit event loop, vello rendering,
  the floating-point geometry of cameras and elements, file I/O and the
  command line.
- `tests/` exercises the library on concrete values.
