# swapbytes

A peer-to-peer chat and file-swap node: peers find each other over mDNS and
a Kademlia DHT, chat on a gossipsub topic, send direct messages and request
files over a request/response protocol, all behind a terminal interface.

- `src/` is the verified library (Verus). It holds every decision the node
  makes: reading typed commands (`node::SwapBytesNode::handle_input`),
  reacting to network events (`handle_event`), nickname announcements, the
  table of peers' nicknames, pending file requests, key handling, scrolling
  and the styling of chat lines (`tui`), and the text primitives these rest
  on (`text`). Each operation's contract is stated over plain spec values;
  `laws` proves properties that span operations.
- `app/main.rs` owns the libp2p swarm, the terminal and the file system. It
  turns swarm and key events into the library's events and carries out the
  actions the library returns, in order.
- `tests/` runs the library on concrete inputs.
