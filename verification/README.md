# kurumi

A vim-like PDF viewer built on GTK 4 and poppler.

- `src/` is the verified library (Verus): errors, modes, window titles,
  status-line texts (zoom, page information), turning a path or URL into the
  document's URL, and the rules by which key, scroll and edge events act on
  the window (the "control escape" count of held control keys).
- `app/` is the GTK program around it: command line parsing, resources,
  widgets, rendering, and the floating-point zoom and fit computations.
- `tests/` runs the library on concrete values.
