use vstd::prelude::*;

verus! {

/// An IP address: a version 4 address as its 32 bits, most significant octet
/// first, or a version 6 address as its 128 bits.
#[derive(Clone, Copy, Debug, PartialEq, Eq, Structural, Hash)]
pub enum IpAddr {
    V4(u32),
    V6(u128),
}

/// A peer socket address. It identifies a connection within the pool.
#[derive(Clone, Copy, Debug, PartialEq, Eq, Structural, Hash)]
pub struct StreamKey {
    pub ip: IpAddr,
    pub port: u16,
}

impl StreamKey {
    /// The version 4 address `a.b.c.d:port`.
    pub fn v4(a: u8, b: u8, c: u8, d: u8, port: u16) -> (r: StreamKey)
        ensures
            r.ip == IpAddr::V4((a * 0x1000000 + b * 0x10000 + c * 0x100 + d) as u32),
            r.port == port,
    {
        let bits: u32 = a as u32 * 0x1000000 + b as u32 * 0x10000 + c as u32 * 0x100 + d as u32;
        StreamKey { ip: IpAddr::V4(bits), port }
    }
}

/// The downstream component that a framed chunk is meant for.
#[derive(Clone, Copy, Debug, PartialEq, Eq, Structural, Hash)]
pub enum Component {
    Neighborhood,
    Hopper,
    ProxyServer,
    ProxyClient,
}

/// A chunk that a discriminator framed and unmasked.
#[derive(Clone, Debug, PartialEq, Eq)]
pub struct UnmaskedChunk {
    pub chunk: Vec<u8>,
    pub component: Component,
}

/// Inbound data for the dispatcher. `last_data` marks the end of the stream.
#[derive(Clone, Debug, PartialEq, Eq)]
pub struct InboundClientData {
    pub socket_addr: StreamKey,
    pub origin_port: Option<u16>,
    pub component: Component,
    pub last_data: bool,
    pub data: Vec<u8>,
}

/// Asks the pool to forget the writer of a connection.
#[derive(Clone, Copy, Debug, PartialEq, Eq, Structural)]
pub struct RemoveStreamMsg {
    pub socket_addr: StreamKey,
}

/// Where outbound data goes.
#[derive(Clone, Debug, PartialEq, Eq)]
pub enum Endpoint {
    /// A node identified by its public key.
    Key(Vec<u8>),
    /// A node identified by its IP address.
    Ip(IpAddr),
    /// A connection identified by its peer socket address.
    Socket(StreamKey),
}

/// Outbound data for one connection; `last_data` asks for a shutdown after
/// the write.
#[derive(Clone, Debug, PartialEq, Eq)]
pub struct TransmitDataMsg {
    pub endpoint: Endpoint,
    pub last_data: bool,
    pub data: Vec<u8>,
}

/// How a byte stream is shut down.
#[derive(Clone, Copy, Debug, PartialEq, Eq, Structural)]
pub enum Shutdown {
    Read,
    Write,
    Both,
}

} // verus!
