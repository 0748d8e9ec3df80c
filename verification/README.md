# apple_mps

The rules that stand between safe Rust and Apple's Metal Performance Shaders,
written in Verus and proved: buffer extents and strides of matrices, vectors
and padded NDArrays, image byte transfers and feature-channel windows, image
filter operand rules, convolution and optimizer argument checks, ray-tracing
geometry and intersection buffers, and the read-count and batch rules of
`MPSState`.

- `src/` is the verified library. Each check takes plain values (lengths,
  offsets, raw enum values, shapes) and its contract states exactly which
  error it returns, or that it accepts; public proof functions state what an
  accepted input guarantees (every element, record or row it names lies inside
  its buffer, a rebuild is what later encodes see, and so on).
- `tests/` runs the checks on concrete values.
- `app/` holds the handles around the Swift bridge into MPS: it reads sizes
  from MPS objects and Metal buffers, calls the verified checks, and only then
  calls into MPS.
