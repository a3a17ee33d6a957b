# morpheus_network

The network and storage layer of the MorpheusX kernel, written in Verus:
the decisions and computations are verified code with contracts, and the
register accesses, the clock and the serial port are left to a thin
platform layer. Where a result comes from the hardware or from a driver
behind the `NetworkDriver` trait, the contracts say what holds whatever
the hardware or driver answers, not what it answers.

## Layout

- `src/` — the verified library.
  - `http/` — headers (case-insensitive lookup, wire format), requests,
    response parsing.
  - `url.rs`, `text.rs`, `error.rs`, `types.rs` — URL parsing, the text
    primitives the HTTP layer is specified with, errors.
  - `driver/` — the NIC and block drivers' logic: VirtIO (feature
    negotiation, initialization state machine, transport, buffer pool,
    net driver), Intel e1000e (device identification, the bring-up state
    machine, PHY values, RX/TX rings), AHCI and VirtIO-blk (request
    slots and the initialization state machines), SDHCI (card
    initialization), USB mass storage (xHCI rings, descriptors, and the
    controller bring-up, device enumeration and Bulk-Only Transport
    command machines), and block I/O request planning.
  - `pci/` — configuration-space addressing and capability decoding.
  - `mainloop/` — the download: the states (init, DHCP, DNS, connect,
    HTTP, done) as functions from what the loop observed to what it does
    next, the buffered disk writer, the ISO manifest and GPT decisions,
    the frame adapter, serial formatting, and the single-pass runner's
    response handling (head in a fixed buffer, status, announced length,
    progress, end of transfer).
- `app/` — the platform around it: the smoltcp device over the frame
  adapter, the download loop, the single-pass runner, the e1000e as a
  network driver, disk writes through a block driver,
  `gpt_disk_io` block I/O, the TSC and the COM1 port.
- `tests/` — tests of the library.

Laws of the library (read-back of headers, ring laps, state-machine
invariants, request planning) are public proof functions next to the code
they are about.
