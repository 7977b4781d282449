# ioscpy_window

The render window of a phone mirror: it shows the newest frame that the phone sent
and turns mouse, keyboard and clipboard activity into messages for the phone.

- `src/` is the verified library. It holds every decision of the window that is not
  floating point, as functions on plain values with proved contracts, and the laws that
  tie them together.
  - `frame`: decoded frames and the slot that keeps the newest one
  - `scale`, `sizing`: the letterbox, the scaled picture, the size of the window
  - `protocol`: the messages to the phone
  - `keys`, `touch`, `clipboard`: input on its way to the phone
  - `session`: the course of a session, action by action
  - `icon`: the steps to the Dock icon
- `app/` is ordinary Rust around it: the window, the clocks, the threads, and the
  floating point arithmetic (the fit to the screen, the cap on the buffer, the sample
  positions and weights, the least move of a touch).
- `tests/` runs the library on concrete values.
