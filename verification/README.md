# Glyph

A terminal notebook. A glyph is a SQLite file of entries; each entry holds
titled sections of Markdown and a layout tree that places the sections on
the screen when the entry is read.

## Layout

- `src/` is the library, verified with Verus:
  - `models/`: entries, sections and the layout tree with its model
    (`LayoutModel`) and the laws of reading and writing nodes;
  - `services.rs`: the entries of an open glyph as the application holds
    them, listed by name;
  - `ids.rs`, `ordering.rs`, `utils.rs`: lookups by id, stable sorting by a
    key, name numbering, decimal text;
  - `markdown.rs`: section content as styled lines, from the Markdown
    parser's events;
  - `app/`: every page, view, dialog and widget as a state machine from a key
    to a new state and an action: the modal text editor, the layout overview
    and its edit panel, the list of sections, the directory list, the text
    and number fields, the placement of sections when reading, and the
    stacks of pages, popups and dialogs.
- `app/` is the program around it: the command line, the terminal loop,
  the database and drawing.
- `tests/` runs the library on concrete values.

## Use

    glyph new <name>      creates <name>.glyph
    glyph open <path>     opens a glyph
    glyph delete <path>   removes a glyph file
    glyph                 starts on the entrance page

F1 quits at any time.
