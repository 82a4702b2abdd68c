# x-majordomo

A HomeKit bridge with two accessories: an eight-outlet power distribution
unit driven over MQTT, and a switch that wakes a PC with a Wake-on-LAN magic
packet.

`src/` is the verified library:

- `decimal`: decimal rendering of `u64`, with the proof that a rendering
  denotes its number and that distinct numbers render differently.
- `pdu`: switch service ids of the outlets, the MQTT command that switches an
  outlet, and the power states read back from the unit's state report, with
  the proofs that outlet `i` addresses line `i + 1` and that no two commands
  coincide.
- `waker`: the magic packet (built by the `wakey` crate) and when it is sent.
- `identity`: default names, setup codes, device ids and categories.

`app/` is the program around it: the HomeKit server, the MQTT link and the
UDP broadcast.
