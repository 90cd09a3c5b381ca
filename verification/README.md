# mctk

The core of a retained-mode GUI toolkit for Wayland, with its logic proved
correct by Verus.

- `src/` is the verified library: integer pixel geometry, box edges and
  corners, the layout's rules for choosing lengths and sides, input
  vocabulary and pointer codes, the fingers on a touch screen, instrumented
  spans, addressing the node tree and rebuilding it (ids, state carried over
  by key, new properties, container placement, registrations, bubbling paths), the machine that decides
  what each window input delivers to which node, and the state machines of
  the text box, slider and carousel widgets. Every function that computes
  carries a contract (the span markers `inst`, `inst_end` and `evt` do
  nothing); the laws that relate several functions are public proof
  functions.
- `app/` is ordinary Rust around it: the floating-point side (layout
  arithmetic, boxes, colors, animation curves, pointer and touch events),
  the loop that runs the input machine against a node tree, and the glue that
  drives the widgets from a clock, a clipboard and laid-out glyphs.
- `tests/` exercises the library on concrete values.
