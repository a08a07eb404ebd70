# api_server

The request-handling rules of a speech-recognition HTTP API, verified with
Verus.

- `src/` is the library. Each request handler is a step function from its
  state and what the outside world reported to its next state and the next
  thing to do (`auth`, `upload`, `v1`, `v2`, `job`); the quota rule
  (`quota`), the error answers (`error`), the job command lines
  (`command`) and the records (`records`) are plain functions. Calls into
  `std`, `chrono` and `uuid` stand behind small trusted wrappers whose
  contracts say what those crates document.
- `app/` is the program around it: the `axum` routes and handlers, the
  `sea-orm` database, the `jsonwebtoken` tokens, files and processes. It
  carries out the actions the library asks for and feeds back what
  happened.
- `tests/` runs the library on concrete requests.
