# glutin_glx

OpenGL contexts on X11, by way of GLX. The decisions are verified with
[Verus](https://github.com/verus-lang/verus): which framebuffer configuration is
chosen, with which attributes a context is asked for, which versions are tried, in
which order libGL and the X server are called, and what is made of each reply.

- `src/` is the verified library. No operation in it calls libGL; each is a state
  machine that asks for one call after the other (`src/protocol.rs`). The functions
  named `law_..` state what holds of whole dialogues.
- `app/` makes the calls on a live connection.
- `tests/` runs the library against written replies, and holds the values of its GLX
  tokens against the bindings of `glutin_glx_sys`.
