# gantt_plan

A Gantt view of a jamming plan: five amplifiers, each covering a frequency
band, and tasks that occupy a rectangle of frequency (MHz) and time (ms).

- `src/` is the verified library: the amplifiers and their bands and colours
  (`task`), the background zones of the plan (`background`), colours
  (`color`), the task schedule driven by a cycle of steps (`plan`), the
  choice of tooltip under the pointer (`hover`) and the
  zoom and scale state of the view (`view`).  Contracts and laws are proved
  by Verus.
- `app/` is the egui program that draws the plan: it turns the library's
  integer layouts into floating-point plot coordinates, runs the step timer
  thread, and handles the window.
- `tests/` runs the library on concrete values.
