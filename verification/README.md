# faithful

Game logic of Populous: The Beginning, verified with Verus.

- `src/` — the verified library: level records (`units`), movement data
  (`movement`), game flags and states, campaign progress, save records and the
  save list order, AI targeting and shaman command queue, the AI script bridge
  and script constants (`ai`, `ai_constants`), flyby scheduling, the PopScript
  bytecode decompiler (`decompiler`), the landscape height grid (`terrain`) and
  viewer helpers (`viewer`).
- `tests/` — tests of the library.
- `app/` — the program around it: the `decompile_scripts` command line, save
  files on disk (serde + bincode), the Lua VM of the AI (mlua), and the
  floating-point parts of flyby playback and landscape interpolation.
