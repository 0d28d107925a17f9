# carro

Control software for a Raspberry Pi car that talks to its dashboard over a
serial link with Modbus-like frames.

- `src/` is the verified library: the CRC-16 of the link (`crc`), the
  requests and their checksum check (`modbus`), the decisions taken on each
  reading of the turn-signal, headlight and cruise-control stalks
  (`dashboard`), shared types (`common`) and the pin map (`pins`).
- `app/` is the program around it: GPIO, UART, I2C sensors and the OLED
  display, the floating-point gauges and the PID controller.
- `tests/` runs the library on concrete frames and readings.
