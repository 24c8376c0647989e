# render_bench

Two browser demos that animate rectangles bouncing off the walls of a canvas
and report the frame rate: one draws with tiny-skia into a software frame
buffer, the other with vello on the GPU.

- `src/` is the verified library: the canvas settings and the
  tiny-skia pixmap made from them, the conversion of RGBA pixmap bytes into
  the `0RGB` words of the frame buffer, the frame counter behind the frame
  rate, the steps each demo takes for a window event, and the vello demo's
  per-device renderer table.
- `app/` is the browser side: the winit event loops, the page (console,
  clock, frame rate display, stop button), the rectangles, whose positions
  are floating-point numbers, and the GPU rendering.
- `tests/` runs the library on concrete values.

There is no standalone binary: the page starts a demo through one of the two
exported functions, `run_tiny_skia_demo` and `run_vello_demo`. The tiny-skia
demo draws as many 16 px rectangles as the box number passed in, on a canvas
of the size passed in; the vello demo always draws 10 000 rectangles of 4 px
on an 800 x 600 canvas. The box size passed in is therefore unused, and the
vello demo uses none of the values passed in.
