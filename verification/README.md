# xwm_selection

The selection transfers of an X11 window manager that bridges X clients and Wayland clients, as a
verified library.

- `src/` decides. `incoming.rs` and `outgoing.rs` are state machines: each call is told what
  happened to a transfer and answers with the next thing to do. `selection.rs` keeps the transfers
  of one selection and drops those that will not finish. `x11.rs`, `poll.rs`, `clock.rs`,
  `limits.rs`, `event_loop.rs` and `window_list.rs` hold what they share.
- `src/*_laws.rs` state what holds of every transfer and every selection: that the selection goes
  through unchanged, that the buffers stay bounded, what a sweep keeps.
- `app/` acts: it sends the requests, reads and writes the pipes, polls, reads the clock, and hands
  the outcome back.
- `tests/` runs the library on concrete transfers.

Constants of `x11rb`, the poll flags of `rustix`, the token of `calloop` and the small vector of
`smallvec` are used through wrappers whose contracts are taken on trust; each says which item it
stands for.
