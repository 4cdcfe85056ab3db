# ratatui-reactive

A minimalistic framework for terminal user interfaces built on fine-grained
reactivity.

- `src/` is the verified core (Verus): the event model and what each kind of
  listener receives, the drawing protocol of an application (draw and quit
  requests, the render effect), scoped tasks (listeners, timeouts,
  intervals), delayed signals and the router built on them, the focus
  state, and background resources. Each part is a small state machine whose
  operations carry exact contracts, with the laws that relate them proved
  beside it. `sleep` builds an async-io timer, whose deadline depends on
  the clock and is not stated.
- `app/` runs that core inside the reactive graph (sycamore-reactive: the
  signals that hold the states, effects, scopes, contexts), the executor
  (tokio, or async-io) and the terminal (ratatui, crossterm): it performs
  the actions the core decides and feeds it the events. The handles users
  call (`Runtime`, `FocusManager`, `DelayedSet`, `Router`, ...) are there.
- `tests/` exercises the core on concrete scenarios.
