# lib — verified core of a Rust binding to Linux `libnvme`

`libnvme` is the userspace library behind `nvme-cli`. A binding to it walks
the handle tree `Root → Host → Subsystem → Controller → Namespace` and issues
admin commands (Identify, Get Log Page, Get/Set Features, firmware and
namespace management).

Layout:

- `src/` — the verified library (Verus):
  - `admin.rs` — typed admin-command parameters and their raw field values;
  - `error.rs` — the `Error` type, its rendering and source;
  - `util.rs` — decoding of C strings and space/NUL-padded ASCII fields;
  - `log.rs` — SMART / Health, Firmware Slot and Error Information log pages
    and their debugging texts;
  - `text.rs` — decimal and hexadecimal renderings of integers, and the
    quoted rendering of a string;
  - `command.rs` — checks and arguments around a libnvme call (file
    descriptors, return codes, controller lists, host identifiers, sizes).
- `tests/` — tests of the library.
- `app/` — the calls into libnvme through `libnvme-sys` (FFI, raw pointers,
  the handle tree and its iterators), which hand plain values to `src/`.
