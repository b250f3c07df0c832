# http-stream-proxy

A small HTTP proxy that rewrites M3U playlists and fans one upstream media stream out to many
consumers. The rules are a library verified with Verus; the program around it does the I/O.

- `src/` holds the rules:
  - `playlist`, `channels`, `percent`: taking the upstream playlist in and serving it with URLs that
    lead back to the proxy;
  - `proxy`, `transcode`: which upstream runs, when it is replaced and how it is transcoded;
  - `pump`, `relay`: moving data from the upstream to the consumers, and when to stop;
  - `sync`: the playback state that all clients share;
  - `auth`, `api`, `http`, `error`: who may connect and what requests are answered with;
  - `state`, `text`: configuration, shared state and text.
- `app/` holds the program: configuration files, HTTP, the transcoder process and the tasks that
  take the steps that the library decides on.
- `tests/` runs the library.
