# probriquegl

An OpenGL/GLX interposer, loaded in front of `libGL`, that dumps the
shaders a game compiles, lets them be rebuilt from a console while the game
runs (`reload N`), can randomise the clear colour (`randcolor`), and lowers
the context version the game asks for to 3.3 while reporting the version it
asked for.

- `src/` is the verified library: the shader/program tables and the hot
  reload (`registry`), the console grammar (`console`, `decimal`), the
  context attribute rewrite and the reported version (`context`), the dump
  file paths (`dump`), the routing of `glXGetProcAddress` (`proc_address`).
- `app/` is the interposer itself: the exported `gl*`/`glX*` entry points,
  the loading of the real driver with `dlopen`/`dlsym`, the console thread,
  file I/O and the random colours.
- `tests/` runs the library on concrete values.
