use vstd::prelude::*;

verus! {

/// Port of the server the client talks to.
pub const REMOTE_PORT: u16 = 4433;

/// The IPv6 loopback address `::1`, as a 128-bit integer.
pub const LOOPBACK_V6: u128 = 1;

/// The IPv6 unspecified address `::`, as a 128-bit integer.
pub const UNSPECIFIED_V6: u128 = 0;

/// The bytes of `"ping"`, the payload written on the stream.
pub open spec fn ping_bytes() -> Seq<u8> {
    seq![0x70u8, 0x69u8, 0x6eu8, 0x67u8]
}

/// Everything a run needs to know about where to bind, whom to talk to and
/// what to send. IPv6 addresses are held as 128-bit integers, most
/// significant octet first.
pub struct ClientSettings {
    /// Local address to bind.
    pub bind_ip: u128,
    /// Local port to bind; 0 lets the system choose one.
    pub bind_port: u16,
    /// Address of the server.
    pub remote_ip: u128,
    /// Port of the server.
    pub remote_port: u16,
    /// Name the server must authenticate as.
    pub server_name: String,
    /// Bytes written once on the outbound half of the stream.
    pub payload: Vec<u8>,
}

impl ClientSettings {
    /// The fixed configuration: bind `[::]:0`, talk to `[::1]:4433` as
    /// `localhost`, send `ping`.
    pub fn loopback() -> (r: ClientSettings)
        ensures
            r.bind_ip == 0,
            r.bind_port == 0,
            r.remote_ip == 1,
            r.remote_port == 4433,
            r.server_name@ == "localhost"@,
            r.payload@ == ping_bytes(),
    {
        let payload: Vec<u8> = vec![0x70u8, 0x69u8, 0x6eu8, 0x67u8];
        proof {
            assert(payload@ =~= ping_bytes());
        }
        ClientSettings {
            bind_ip: UNSPECIFIED_V6,
            bind_port: 0,
            remote_ip: LOOPBACK_V6,
            remote_port: REMOTE_PORT,
            server_name: "localhost".to_owned(),
            payload,
        }
    }
}

} // verus!
