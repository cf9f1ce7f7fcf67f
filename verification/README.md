# rjs

A native JavaScript environment built on SpiderMonkey, with a thin WebGL
binding for drawing into a window.

- `src/` is the verified library: the store in which the event loop keeps
  values alive for scripts, the registry of classes defined in a context,
  the calling convention of native functions, the properties a script's
  event object receives for each window-system event, the decisions of the
  window thread, the results of GL queries, and the messages printed or
  thrown.  Verus proves each function there against its contract, with
  two kinds of exception: the small wrappers around the `slab` crate and
  around std's lossy UTF-8 decoding, whose contracts state what those
  calls do and are trusted rather than proved, and `defineAllGlobals`,
  which does nothing and states nothing.
- `tests/` exercises the library on concrete values.
- `app/` is the program: the SpiderMonkey bindings, the tokio event loop,
  the window thread with its GL context, and `main`, all calling into the
  library for their decisions.
