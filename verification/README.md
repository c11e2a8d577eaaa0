# msr_driver

A Windows kernel driver that lets user mode read and write model-specific
registers (MSRs) through two device I/O control requests.

- `src/` is the verified library: status codes and their `Result` form, the
  I/O control codes, dispatch of request packets, the byte layout of the
  register requests and answers, counted UTF-16 strings, the device, driver
  and symbolic-link call arguments, and the pool allocator's choice of
  kernel routine.
- `app/` is the kernel-mode shell: entry and unload routines, request packet
  access, the `rdmsr`/`wrmsr` instructions and the kernel calls, each driven
  by a decision of the library.
- `tests/` runs the library on concrete requests.
