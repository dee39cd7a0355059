# async_bzip

Asynchronous networking components on futures 0.1 and `tokio_core`, with
their logic verified by Verus.

- `src/` is the verified library:
  - `decoder`: a non-blocking, buffered bzip2 decoder. Compressed bytes are
    written in, decompressed bytes wait in a fixed-size buffer until they are
    read out, and a blocked reader or writer is parked until the other side
    wakes it.
  - `line_codec`: the framing of the line protocol (UTF-8 text and a newline).
  - `connection`: the decisions of the stubborn sink, which reconnects to the
    remote server whenever the connection is lost.
  - `reconnect`: the buffering sink that forwards once it has a sender, and
    the pause before reconnecting.
  - `message_buffer`, `sample`: a sink that keeps every message in order, and
    a value a task waits for.
  - `messages`: the traffic of the simulated clients.
  - `easybuf`: `tokio_core`'s `EasyBuf`, seen through the bytes it holds.
- `app/` holds the programs: the proxies, the reconnecting clients, the line
  server, and `bunzip`, which decompresses standard input through the decoder.
- `tests/` exercises the library on concrete values.
