//! Where the server of lines is found.

use vstd::prelude::*;

verus! {

/// The address of a host.
#[derive(Debug)]
pub struct IPV4 {
    address: String,
}

impl Clone for IPV4 {
    fn clone(&self) -> (copy: IPV4)
        ensures
            copy@ == self@,
    {
        IPV4 { address: self.address.clone() }
    }
}

impl View for IPV4 {
    type V = Seq<char>;

    closed spec fn view(&self) -> Seq<char> {
        self.address@
    }
}

/// A host and a port, joined by a colon.
pub open spec fn joined(host: Seq<char>, port: Seq<char>) -> Seq<char> {
    host + seq![':'] + port
}

impl IPV4 {
    /// The host's address with `port`, as one connects to it.
    pub fn address(&self, port: String) -> (address: String)
        ensures
            address@ == joined(self@, port@),
    {
        proof {
            reveal_strlit(":");
        }
        let mut address = self.address.clone();
        address.append(":");
        address.append(port.as_str());
        address
    }

    pub fn new(address: String) -> (host: IPV4)
        ensures
            host@ == address@,
    {
        IPV4 { address }
    }
}

/// A client of the server of lines, as contracts see it.
pub struct Endpoint {
    pub host: Seq<char>,
    pub port: Seq<char>,
}

/// A client of the server of lines.
pub struct TypeClient {
    host_ip: IPV4,
    port: String,
}

impl View for TypeClient {
    type V = Endpoint;

    closed spec fn view(&self) -> Endpoint {
        Endpoint { host: self.host_ip@, port: self.port@ }
    }
}

impl TypeClient {
    pub fn new(host_ip: IPV4, port: String) -> (client: TypeClient)
        ensures
            client@ == (Endpoint { host: host_ip@, port: port@ }),
    {
        TypeClient { host_ip, port }
    }

    /// The address to connect to: the host, a colon, the port.
    pub fn address(&self) -> (address: String)
        ensures
            address@ == joined(self@.host, self@.port),
    {
        self.host_ip.address(self.port.clone())
    }
}

} // verus!
