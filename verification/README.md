# rustation_ng

A PlayStation emulator core written in Verus: the executable Rust carries
`requires` / `ensures` contracts, and Verus proves the code against them.

## Layout

- `src/` — the verified library.
  - `psx_complete/` — CPU (decode and execute), COP0, GTE, GPU command decoding,
    DMA, timers, interrupts and the memory bus of the console.
  - `psx/` — memory map, caches, BIOS helpers, CPU instruction handlers, the
    expansion port (cheat codes), the sound processor (register file, sound RAM
    transfers, noise generator, reverb filter network, mixing cycle, audio ring buffer and
    envelopes), CD structures, and the controller-port peripherals (multitap, mouse, GunCon,
    NeGcon, dance mat, fishing controller).
  - `debugger/` — the GDB remote protocol: packet framing with checksums,
    request decoding and reply encoding.
  - `debugging_tools/` — memory inspector, CPU tracer, GPU debugger, function
    profiler, save-state comparison and disassembler.
  - `templates/` — hardware corner cases (volume sweeps, timers, OTC DMA, error
    messages), the OpenGL renderer's command batching, performance monitor,
    achievement runtime and video-recording argument building.
  - `text.rs`, `bits.rs` — number formatting and bit-level lemmas used throughout.
- `tests/` — ordinary Rust tests run against the compiled library.
- `app/` — the host side: sockets, files, clocks, floating-point overlays and
  the serde / thiserror derives, calling into the library.

The only outside crate the library calls is `sha2`, for the game hash of the
achievement system; that call sits behind a single trusted wrapper.
