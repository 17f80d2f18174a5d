# nvml_wrapper

A wrapper for the NVIDIA Management Library (NVML) whose logic is verified with
Verus: how NVML's return codes become errors, how its C enumerations, bit masks
and structures become Rust values (and back), what each query gives for the
values NVML filled in, the event loop's decisions, and the decisions of the
`EnumWrapper` derive.

Layout:

- `src/` — the verified library. `error` maps return codes to `NvmlError`;
  `enum_wrappers`, `enums`, `bitmasks`, `struct_wrappers` and `structs` hold
  the value types and their conversions; `device` holds what the device, unit,
  NvLink and system calls decide on the values NVML reports;
  `high_level::event_loop` what the event loop does after each step; `wrap_derive`
  the derive's parsing of its input (through `syn`) and its decisions.
- `app/` — the code around it: the rendering of the derive's impl with
  `quote`, the event loop that waits and calls back as the library decides, and serde forms of the
  value types.
- `tests/` — tests of the library.

Calls into the NVML shared library itself are not part of this crate: each
function of `src/device.rs` takes the return code and the values that such a
call filled in.
