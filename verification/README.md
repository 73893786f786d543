# hsakmt_rs

The ROCt thunk: the user-mode side of the AMD KFD kernel interface, written in
Verus. `src/` holds the library with its contracts and proofs; `app/` is the thin
layer that opens devices, issues ioctls, reads sysfs and the environment, and
feeds the results to the library's step functions; `tests/` exercises both the
pure functions and the step functions with scripted device answers.

Modules of `src/`:

- `rbtree`, `rbtree_amd`: the address-ordered search tree and its lookups
  (min, max, exact or nearest match under a lookup type).
- `bitfield`, `hsakmttypes`: status codes, topology property types and the
  bit-field accessors of the packed flag words.
- `text`, `topology_utils`, `topology_types`, `topology`: the sysfs
  `key value` property parsers and the topology state.
- `version`, `open_close`: KFD ioctl requests, the version query, page size and
  the step function that opens KFD.
- `fmm_types`, `fmm`, `globals`, `queues`: the memory-manager types, the step
  function that initialises the process apertures, the library globals and the
  doorbells.
- `test_kfd_utils`: the fixture of the KFD tests.
