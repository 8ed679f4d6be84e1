# packet_parser

A dissector for Ethernet II frames carrying IPv4 datagrams and ICMP
messages, written in Verus. Every parser states, over the bytes it is
given, exactly what it decodes and exactly when it fails; the Internet
checksum and the Wireshark-style text of each layer are specified the
same way.

Layout:

- `src/` is the verified library:
  - `bytes`, `checksum`, `text`: network byte order, the RFC 1071
    checksum, and the number formats of the text output;
  - `layer2::ethernet`: the Ethernet II header;
  - `layer3::ipv4`: the IPv4 header, its flags, protocol, DS field,
    anomalies and errors, and its text;
  - `layer3::icmp`: ICMP messages, types, anomalies and their text;
  - `frame`: the layer tree of a frame, and the `errors` that halt it.
- `tests/` exercises the library on a captured echo request and on
  mutations of it.
- `app/` is the program that prints the dissection of a sample frame.
