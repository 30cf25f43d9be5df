# broom

A minimal init process for containers: it starts one immediate child,
connects its standard streams to its own, forwards signals to it and exits
once no immediate child is left.

- `src/` is the library, verified with Verus: the state machines that decide
  what happens on each event (`handler`, `event_dispatcher`), the description
  of the child to start (`child_process`) and the reading of the command line
  and configuration (`cli`).
- `app/` is the program around it: it starts the child, waits for signals and
  child exits with tokio, and performs the actions that the library returns.
- `tests/` runs the library on concrete events.
