# vibe_emu

The core of a Game Boy and Game Boy Color emulator with the rules of its desktop
front end, written and proved in Verus.

- `src/` is the verified library.
  - `mmu`, `serial`, `gameboy`, `snapshot`: the memory map with its DMA units, the
    link port, the machine and its resets, and what a debugger shows of it.
  - `devices`: what the memory map needs of the devices on the bus. Each device has
    an engine behind a trait whose spec functions say what its operations do;
    `devices::null` holds engines that do nothing.
  - `network_link`: the BGB link protocol: packets, the state of a transfer, the
    handshake and the session on a socket.
  - `audio_queue`, `diagnostics`, `text`, `mobile_sys`: the queue of stereo frames,
    the log sink, texts, and the codes of libmobile.
  - `ui`: menus, keys, windows, pictures, sound and the loop of the emulator thread,
    as functions from a state and an event to the next state and what to do.
- `tests/` runs the library.
- `app/` is the program around it: arguments, files, sockets, threads, windows and
  the GPU.

Every function states what it returns and changes. Where that is up to an engine,
to the partner on the link cable or to a log sink, it states what is asked of it
and what is done with the answer, over the spec functions of the trait. The two
ends of the audio queue, which share it between threads, state less: each keeps any
property of the queue that its step keeps, and gives what its step gives for some
queue with that property. What holds of several functions together is a proof
function whose name starts with `law_`.

What is taken on trust is marked `external_body` or `assume_specification`, with a
comment that names the outside function: `String::push`, `bytemuck::cast_slice`
and the decoder of the `png` crate.
