# onvif_hal

Hardware layer of an ONVIF camera server for Anyka AK3918 boards, written in
Verus: every function in `src/` carries a `requires`/`ensures` contract that
Verus proves.

- `src/ffi/` — the vendor SDK seam: PTZ, ISP switches, video, audio and the
  command server, each behind a backend trait, with the SDK-code and handle
  decisions around the calls. Each trait method's answer is tied to its
  arguments by an `*_answer` relation that a backend may define (the host
  stubs do), so the contracts above say what each call is handed.
- `src/hal/common/` — the HAL above the backends: SDK type mirrors, result
  mapping, the PTZ handle, the video stream cancel state machine, audio and
  imaging checks.
- `src/hal/anyka/ptz/` — the kernel motor driver's decisions: ioctl words,
  geometry, turn planning, stop targets, the interruptible wait.
- `src/hal/anyka/ipc/` — the vendor-daemon protocol: request framing and
  response checks, the epoch gate, the shared-memory frame ring, the push
  poll verdict, ISP and OSD payloads.
- `src/hal/shm_ring.rs` — the earlier (v2) layout of the frame ring.
- `app/` — the I/O around the library: C entry points and the device
  build's public SDK functions, device files, sockets, the shared mapping of
  the frame ring (daemon writes copied into the library's image, a notified
  slot leased on the live mapping by compare-exchange before its payload is
  copied, the library deciding from that lease, and its slot and counter
  changes published back atomically), threads
  with deadlines, floating-point ONVIF conversions, and the
  `Display`/serde faces of the library's types.
- `tests/` — tests run against the compiled library.

The public proof functions (`lemma_*`) state the library's laws.
