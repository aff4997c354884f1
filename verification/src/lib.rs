//! SwapBytes: the decision logic of a peer-to-peer chat and file-swap node.
//!
//! The library holds everything the node decides: how a typed line becomes a
//! command, what a network event does to the node's tables and what it shows,
//! how keys edit the input line, and how the chat pane scrolls. The program
//! around it performs the network and terminal work the library asks for.
pub mod text;
pub mod wire;
pub mod tui;
pub mod node;
pub mod laws;
pub mod behaviour;
