//! Client-side session engine for an MQTT-class publish/subscribe protocol.
//!
//! The engine establishes a transport connection, performs the connect
//! handshake, keeps the link alive with a ping/pong cycle, and multiplexes
//! outbound requests and inbound acknowledgments over a full-duplex link
//! split into independent send and receive halves.  Wire encoding and the
//! transport itself are external collaborators: the engine works on decoded
//! frames, modelled as typed, sized values, and on plain clock readings, so
//! that every decision it makes is verified.

pub mod client;
pub mod connect;
pub mod error;
pub mod packet;
pub mod keepalive;
pub mod queue;
pub mod reader;
pub mod request;
pub mod supervisor;
pub mod table;
pub mod writer;
