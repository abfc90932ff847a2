# DongLoRa client

A client for DongLoRa radios: it finds the radio, connects to it over USB or
through the mux daemon, configures it, and sends and receives packets.

- `src/` is the library, verified with Verus. It decides and computes and does
  no I/O: tags and answers, recovery, retries, the choice of a transport, the
  handshake, and the keepalive are state machines that name one action at a time
  and take what came of it. Every function states what it returns; the laws that
  span functions are public proof functions at the end of their modules.
- `app/` puts the library on tokio: transports, the task that reads, timeouts
  and the background keepalive.
- `tests/` runs the library against the frames and payloads of the
  `donglora-protocol` crate.

What is believed of code outside the library stands next to it. Each function
marked `external_body` names the outside function that it calls and what is
claimed of it: the codecs of `donglora-protocol`, one random number of `rand`,
and a few functions of the standard library.

## Connecting

A connection uses the first of these that there is:

1. the serial port that was asked for;
2. the mux daemon at the TCP endpoint `DONGLORA_MUX_TCP`;
3. the mux daemon at its socket: `DONGLORA_MUX`, or else
   `$XDG_RUNTIME_DIR/donglora/mux.sock`, or else `/tmp/donglora-mux.sock`;
4. the radio on USB.

A process that has used the mux daemon stays with it. Once a way to the daemon
wins, reconnects commit to that way: where it is gone, a reconnect waits for it,
or fails if it may not wait, and takes neither another way nor USB. Without Unix
sockets only TCP leads to the daemon.
