# owl_dial

The logic of a desk controller with five action buttons, two page buttons, a rotary dial
and two indicator lights. A button sends an MQTT message (its payload taken from the last
dialed count) or a key to the USB host, depending on the page.

- `src/` is the verified library: the page table (`actions`), the buttons and their
  multiplexer scan (`buttons`, `scanner`), the dial session (`dial`), the light patterns
  (`indicator`), the state manager that turns button events into effects (`state`), the held
  USB keys and reports (`keyboard`), the USB bus state (`usb_device`), the MQTT session
  decisions (`mqtt_link`), the shared optional byte (`util`) and decimal formatting
  (`decimal`).
- `app/` is the firmware around it: the tasks, pins, timers, signals, WiFi, MQTT and USB
  stacks. It hands the library plain values and carries out what the library returns.
- `tests/` runs the library on concrete values.
