# giggles

The command-line tool for Giggles librarians: log in with a device code,
upload GIFs, videos and tweet links, and show the signed-in user.

- `src/` is the verified library (Verus). It holds the decisions and the
  text the tool produces: where credentials are stored and how a saved key
  is found again (`config`), what an input names and what its media is
  called (`resolve`), server endpoints and status classes (`http`), the
  upload pipeline's failures, request bodies, blob request framing,
  chunking and batch reporting (`upload`), the order of the steps that
  resolve an input and upload it, as step functions from event to next
  action (`flow`), the device-login decisions (`login`), the layout of
  status lines (`shell`), and character-level helpers (`text`).
- `app/` is the program around it: argument parsing, file and network I/O
  (it performs the actions the step functions ask for and hands back what
  happened), progress bars, concurrency and terminal styling.
- `tests/` runs the library on concrete values.
