# librespot-bridge

A bridge that plays Spotify Connect audio on a Yandex Station: the samples that librespot
decodes are encoded as MP3, served to the station over HTTP under an address that changes
with every track, and the station is told over its local Glagol protocol what to play.

`src/` is the logic, verified with Verus:

- `state` - what the bridge knows, and how a stream is begun, fed and cut
- `events` - the player's events, the bridge's commands, and the change of tracks
- `http` - the answers to requests, the feeding of the stream, the station's leaving
- `glagol` - tokens, messages to the station, and what the station reports
- `session` - credentials, reconnecting, and the watch over a Spotify session
- `sink`, `encoder` - pacing and MP3 encoding
- `json`, `chunk`, `protobuf`, `base64`, `text` - JSON documents, byte queues, the wire
  format, text
- `laws` - what holds of the bridge as a whole

`app/` is the program around it: sockets, tasks, the librespot session and the command line.
`tests/` runs the library against the real LAME, Base64 and JSON crates.
