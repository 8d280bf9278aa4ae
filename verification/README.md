# Desk fan control

Control logic of a networked desk fan, proved with Verus.

- `src/utf8.rs`: where a byte string stops being UTF-8.
- `src/number.rs`: unsigned 16-bit numbers written in a radix (decimal
  command fields, hexadecimal sensor fields).
- `src/command.rs`: the command datagram `<command>,<parameter>,<value>.`.
- `src/temperature.rs`: the I2C sensor readout and the temperature loop's
  choice of fan speed.
- `src/stepper.rs`: the stepper motor that points and oscillates the fan.
- `src/fan.rs`: PWM duty cycles, the night timer, the start-up ramp.
- `src/controller.rs`: what the command loop does for each command.
- `app/`: the programs (`fan <program>`) that do the UDP, GPIO, PWM and I2C
  I/O around the library.
