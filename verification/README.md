# neutrino

A modular proxy: connections come in through an input chain (a SOCKS5
server, optionally behind header injectors that strip a fake protocol
header) and go out through an output chain (a TCP connection, optionally
followed by header injectors and SOCKS5 proxies).

- `src/` is the verified library: the SOCKS5 byte format (`socks5`), link
  and socket addresses (`addr`), the client and server handshakes as step
  functions (`handshake`), the chain nodes and the plans by which they open
  and serve connections (`chain`), the routing of one connection through
  the input chain, then the output chain, as a step function (`session`),
  reading the configuration text as YAML (`config_text`), loading a chain
  set from its configuration (`config`), and the laws relating them
  (`codec_laws`, `handshake_laws`, `chain_laws`, and in `session`).
- `app/` is the program: it reads `config.yaml`, parses the socket
  addresses in it, and performs the network I/O that the library's
  sessions, plans and handshakes ask for.
- `tests/` runs the library on concrete values.
