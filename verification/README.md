# nocat

Verified logic for a wireless presentation remote built from two Adafruit Feather RP2040 RFM69
boards. The sender scans a two-key matrix and broadcasts key events at 915 MHz; the receiver types
the left or the right arrow for each press, over USB.

## Layout

- `src/` is the library, verified with Verus. It holds every decision: the payloads and how they
  are read, the duty cycle of the sender's radio, the two NeoPixel displays, the key scanner, the
  battery monitor, the keyboard taps, and the start-up of the boards. Each task is a state
  machine: it says what to do next, and takes in what came of it.
  - `sender` and `receiver` hold the two boards, `bring_up`, `led` and `packet` what they share,
    and `laws` what holds of the two together.
  - `packet` holds the only trusted items: the packet type of the `rfm69-async` driver, its
    constructor, and two of its fields.
- `app/` is the firmware around it: pins, buses, timers, channels and the log. `ROLE` in
  `app/main.rs` selects the board. The executor is set up for the host here; an image for the
  board takes its `platform-cortex-m` feature instead.
  The transmit power stays at the driver's setting: `rfm69-async` 0.1.0 has no call for the
  high-power registers of the +20 dBm boost and keeps its register writes private, so the
  firmware logs that step as failed and goes on.
- `tests/` runs the library with the real driver crate.

## Radio protocol

Payloads of the sender, always broadcast:

| Payload            | Meaning                               |
|--------------------|---------------------------------------|
| `[key_index, 0/1]` | Key event: 1 when pressed             |
| `[0xFF, 0xFF]`     | Battery low: at most 3.2 V            |
| `[0xFE, 0xFE]`     | Boot announcement, with three retries |

The sender reads a reply as `[rssi, key_index]`, the signal strength being a signed byte.
