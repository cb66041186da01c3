# hyperlight-unikraft

Host-side library and `hluk` command for running Unikraft unikernels on
Hyperlight.

- `src/` is the verified library (Verus): mount tables and the kernel
  command line (`mount`), guest configuration and the host-function plan
  (`config`), newc CPIO driver detection (`cpio`), what to execute (`exec`),
  and the logic behind the guest's `net_*` host functions (`hostnet`: errno
  values, Winsock translations, the socket table, reply and request
  layouts, per-call decisions).
- `app/` is the `hluk` program: sandbox creation and restore through
  `hyperlight-host`, host-function registration, socket operations through
  `socket2`/`libc`, and the command line.
