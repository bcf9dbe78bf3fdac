# wyzesense2mqtt

A bridge from Wyze Sense USB dongles to MQTT and Home Assistant, with a web dashboard
and a simulated dongle. What the bridge computes and decides is verified with
[Verus](https://github.com/verus-lang/verus).

## Layout

- `src/` is the verified library.
  - `protocol`: packets and the byte stream, telemetry, batteries, sensors and how
    they show in Home Assistant, and the manager of all sensors.
  - `engine`: the exchanges with one dongle: requests and answers, the handshake,
    listing and pairing, and what a packet calls for.
  - `transport`: HID frames, the search for dongles, captures, and a dongle in memory.
  - `gateway`: what is published on MQTT and what messages from it ask for.
  - `web`: which requests the web interface grants, and what it shows.
  - `config`, `cli`: settings from files, the environment and the command line.
  - `simulator`: a dongle that is driven from a console.
  - `text`, `hex`, `json`, `order`, `registry`, `clock`: what the others stand on.
- `app/` performs what the library decides: files, devices, sockets, MQTT, HTTP.
- `tests/` runs the library from outside.

## How to read it

Most types have a model (their view); those made of plain fields are their own. Every
function says over these what it returns or changes. Statements that span several functions are the proof functions
whose names start with `law_`.

Nothing in the library waits, sends or reads a file. Times come in as arguments;
the few functions that ask the clock themselves say what holds whatever it shows.

## What is not proved

The library believes what the standard library documents of `String::push`,
`String::from_utf8`, `String::from_utf8_lossy`, `str::to_lowercase`,
`str::to_uppercase` and `char::is_alphanumeric`, and takes any answer from the clock.
Temperatures are whole hundredths of a degree in the library; `app/` turns them into
floating point at the edges.
