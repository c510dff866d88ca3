# padbind

Binds game controller inputs to keyboard keys for two players, for games with
little or no controller support at offline events.

- `src/` is the verified library: the inputs (`input`), the binding table
  (`bindings`), the configuration and its built-in Wonderful World layout
  (`config`), player profiles (`profile`), the binder as a state machine
  (`session`) and the properties proved of it (`laws`).
- `app/` is the program around it: command-line options, loading the JSON
  configuration (`-f <PATH>`, `bindings.json` by default, looked for beside
  the program when the working directory has none, the built-in layout
  when the file cannot be opened), the SDL2 event loop and the keyboard
  events sent through enigo.
