# win32

The core of a Win32 user-mode emulator, verified with Verus.

- `src/x86.rs`: the register file and the stack `push` of the emulated CPU.
- `src/memory.rs`: the emulated address space as little-endian bytes.
- `src/mappings.rs`: the sorted, disjoint, page-aligned list of mapped
  regions and first-fit allocation of new ones.
- `src/winapi/`: kernel32's process state, import symbols and api-set aliases.
- `src/shims.rs`: the table of host handlers reachable at `0xF1A7_xxxx`, the
  async executor's pending future and calls from the host into x86 code.
- `src/machine.rs`: the machine, stack setup, executable start-up and shim
  returns.
- `app/`: host plumbing that Verus does not check: calling handlers, polling
  futures, and the serializable snapshot of the DLL state.
