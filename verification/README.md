# slang-bridge

A bridge between a web page where shaders are written and the devices they run
on. The daemon relays messages between web peers and the connected device, and
keeps every usable Android device tunneled to itself with `adb`, with the
companion app running on it. The device's end receives shaders, runs them with
Vulkan, and reports how long its frames take.

`src/` is a library of decisions, verified with Verus. It performs no input or
output: each module takes what was read, says what to do next, and states that
as a contract.

- `adb`: the adb server's lists of devices, and commands of the `adb` tool
- `daemon`: tunnels, the companion app, and configuration
- `bridge`: messages, what waits for each peer, the relay, and the device's end
  of a connection
- `android`: what passes between the threads of the device app, and what it
  does for a frame
- `renderer`: what a renderer owns and does, from choosing a device to the
  commands of a frame
- `text`, `number`, `bytes`: what these are written with

Numbers that are floating-point elsewhere are carried as bit patterns, and
Vulkan handles as plain integers.

`app/` runs those decisions: sockets, processes, Vulkan calls, the Java and C
interfaces, and the wire format. The device's shaders are read from a `shaders`
directory. `tests/` exercises the library on given values.
