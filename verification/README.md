# libnvme

A verified core for talking to NVMe devices through the Linux `libnvme` C
library, written in [Verus](https://github.com/verus-lang/verus).

The library decides and encodes. A builder describes a request; its `execute`
checks the request and either says why it is refused or returns the command to
hand to libnvme, with every field in place. Return values, C strings, Identify
data and discovery logs are decoded by functions whose contracts say exactly
what comes out. The library makes no system call and holds no `unsafe` code.

- `src/` - the verified library. Each builder's view is the request it describes;
  the laws that relate several functions are public proof functions beside them.
- `tests/` - the library run on concrete values.
- `app/` - handles and FFI calls around the library: it opens devices, issues the
  commands and hands the results back. It needs `libnvme-sys` and a system
  libnvme newer than 1.8.

What is trusted rather than proved is in `src/error.rs`: the declarations of
`std::io::Error` and `std::str::Utf8Error` as opaque types, the name `os_code` for
what `std::io::Error::raw_os_error` reports, and the contracts of
`std::io::Error::from_raw_os_error`, `std::io::Error::last_os_error` and
`std::str::from_utf8`.

Types whose `Debug` output is written by hand (the handles, the Identify data and
the discovery log) have it in `app/`; the bare types in `src/` have none.
