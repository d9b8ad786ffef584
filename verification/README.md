# virtio_net_migration

A virtio-net device that can be snapshotted, migrated and restored, with its decisions
verified by Verus.

- `src/` is the verified library. The device model, its configuration space, features,
  announcements and snapshots are plain functions with contracts. The event loops, the
  activation and the making of taps are step machines: each names an operation to perform,
  takes its outcome and names the next one. The functions called `law_*` state what holds over
  several of these steps or calls.
- `app/` performs the operations: epoll, event file descriptors, taps, threads and queues. What
  it needs from the virtual machine monitor around it is in `app/backend.rs`.
- `tests/` runs the library on concrete values.

State is serialized by functions that the caller hands in, so the library does not depend on
how a state is written down. `std::io::Error` and `serde_json::Error` are carried through
without a claim about their contents; nothing else is trusted.
