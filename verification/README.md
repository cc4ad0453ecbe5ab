# peer_stream

A peer-to-peer screen and audio streaming tool over WebRTC, split in two:

- `src/` — the verified library: reading and writing session descriptions (base64 of
  their JSON text), the latency clock reading and its decimal message format, the fault tolerance of the audio track
  reader, the messages sent for captured keyboard and mouse events, the reactions to
  connection state changes, the choice of tracks and capture sample formats.
- `app/` — the I/O around it: the WebRTC peer connection and data channels, the SNTP
  socket, audio devices, GStreamer pipelines and the input message loop.
