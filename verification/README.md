# cynthiaweb

A small website engine: it reads a site configuration (TOML, JSONC or Dhall;
a JavaScript configuration can be written by `convert` but this build has no
engine to load one) and a list of publications, renders pages, posts and post lists
through templates, caches what it serves, and hands requests to JavaScript
plugins over a line protocol.

- `src/` is the library, written in Verus: configuration handling and the
  commented config files, the publication list and its filters, rendering
  decisions and the HTML pieces of a page, the server cache, the plugin
  runtime's message queue, request routing, logging and terminal styling.
  Every function carries a contract; the `law_*` proof functions state
  properties that span several calls.
- `app/` is the `cynthiaweb` program around it: argument handling, file and
  network I/O, the HTTP server, the plugin runtime process and the
  interactive initialiser.
- `tests/` runs the library on concrete inputs.
