# shadow_descriptor

File descriptors of a simulated process, the files that they point to, and the listeners that are
told when the status of a file changes. The library under `src/` is verified with Verus.

- `flags`: the sets of flags that files and descriptors have.
- `listener`, `event_queue`, `status_source`: listeners, the events that are queued for them, and the
  source that queues them.
- `cshadow`: the calls to be made to the C side, and who holds references to its status listeners.
- `pipe`, `file`, `descriptor`: a pipe's status, files behind run-time borrows, and descriptors.
- `shared`: what is taken on trust of `Arc` and of `atomic_refcell`.
- `syscall`: what a syscall handler returns, on both sides.
- `export`: what the C side can do with descriptors and files.
- `counts`: how many descriptors and other pointers a file has, and when it is closed and goes away.
- `laws`: what holds across calls, above all that references to status listeners are balanced.

`app/` joins the library to the C side and to the functions that listen: it makes the calls, runs the
event queue, and takes and gives raw pointers. Values that hold something of the C side have a method
`release`, which is called where they would otherwise be dropped.
