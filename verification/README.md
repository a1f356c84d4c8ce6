# agb_serial

The multiplayer mode of the Game Boy Advance serial link, verified with Verus.

Up to four consoles exchange 16-bit words over the link. The master starts a transfer on each
timer interrupt; at the end of a transfer every console stores the words that came in and sets up
the next one to send. The program exchanges words with the interrupt handlers in `sync`.

- `src/` is the verified library. It works on the registers as plain values:
  - `registers`: the registers of the port and what the driver does to them
  - `fifo`: the bounded queues, on `heapless::Deque`
  - `interrupt`: the interrupt side of the driver
  - `multiplayer`: the program's side of the driver
  - `dump`: the registers as text
  - `laws`: what holds of the driver as a whole
- `app/` ties it to the console: the registers in memory, the interrupt handlers, and the state that
  they share with the program.
- `tests/` runs the library on simulated registers.
