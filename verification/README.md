# boat3_client

A desktop client for a remote-controlled boat: it pings the boat's HTTP
server, configures and writes the boat's GPIO pins, and fetches camera
images.

- `src/` is the verified library (Verus).
  - `remote/protocol.rs`: the pin values and the reply envelope
    `{ ok, error, data }` of the server.
  - `remote/net.rs`: errors, requests, how a raw reply is interpreted, the
    outcome of a ping, and the step function of a download into a file,
    with the laws that every run of it obeys.
  - `remote/controller.rs`, `remote/gpio.rs`, `remote/camera.rs`: the
    request of each remote operation and how its reply is read.
  - `ui/gpio.rs`: the list of added pins and the GPIO panel's fields, with
    the laws that adding, writing and removing pins obey.
  - `ui/text.rs`: the texts shown on screen: messages, decimal numbers, and
    the names of modes and values.
- `app/` is the program around it: the egui window, the JSON forms of the
  values, and the network and file I/O (reqwest, tokio).
- `tests/` runs the library on concrete values.
