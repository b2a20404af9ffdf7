# lc3_backend

The logic of an LC-3 desktop backend, verified with Verus. The simulator itself,
the parser and the assembler come from `lc3_ensemble`.

- `src/` is the library. `ensemble` holds what is taken on trust of
  `lc3_ensemble`; `registers`, `memory`, `breakpoints`, `machine`, `listing`,
  `execution`, `assembly` and `console` hold the commands; `text` helps them;
  `laws` states what holds of the commands together.
- `app/` is the Node.js addon around it: arguments, files, threads, channels.
- `tests/` run the library with the real simulator.
