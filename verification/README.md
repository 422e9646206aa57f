# magma

A verified library for the magma GPU protocol: the wire structures and their
little-endian layouts, the encoders of commands and extension chains, the
shared command ring, the bookkeeping of virtio sync objects, and the
decisions each kernel backend (amdgpu, i915, xe, kgsl, msm, panthor, wddm)
takes before it talks to its driver.

The functions under `src/` are verified by Verus against their contracts;
where a result comes from a backend that the library's users implement, the
contract ties it to what that backend's own contract allows. Calls into
`magma-gpu` go through a handful of trusted wrappers, each documented where
it stands.

Layout:

- `src/` — the library, verified with Verus.
  - `protocol.rs`, `layout.rs`, `wire.rs`, `encoder.rs`, `api.rs`: structures,
    byte layouts, encoders, extension chains.
  - `protocol_v1.rs`: the first protocol version and its fixed-buffer encoder.
  - `ring.rs`: the command ring shared with the host.
  - `tracker.rs`, `sync.rs`, `submit.rs`: sync objects and submissions.
  - `virtgpu.rs`: the virtio-gpu transport: capabilities, host features,
    command builders, submission encoding.
  - `amdgpu.rs`, `i915.rs`, `xe.rs`, `kgsl.rs`, `msm.rs`, `panthor.rs`,
    `wddm.rs`: the kernel backends.
  - `device.rs`, `queue.rs`, `memory.rs`, `traits.rs`: the generic device
    layer over the backends.
- `tests/` — tests of the library on concrete values.
- `app/` — plumbing that talks to a kumquat virtio-gpu server through
  `magma-gpu`, and error translation; not verified.
