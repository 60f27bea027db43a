use vstd::prelude::*;

use crate::nul_free;

verus! {

/// Which kind of certificate the peer connection authenticates with.
/// `raw_value` gives the numeric code the native API uses for each kind.
#[derive(Debug, PartialEq, Eq, Structural, Clone, Copy)]
pub enum CertificateType {
    Default,
    ECDSA,
    RSA,
}

impl CertificateType {
    /// The native code of the kind.
    pub open spec fn spec_raw_value(self) -> u32 {
        match self {
            CertificateType::Default => 0,
            CertificateType::ECDSA => 1,
            CertificateType::RSA => 2,
        }
    }

    pub fn raw_value(self) -> (r: u32)
        ensures
            r == self.spec_raw_value(),
    {
        match self {
            CertificateType::Default => 0,
            CertificateType::ECDSA => 1,
            CertificateType::RSA => 2,
        }
    }
}

/// Which ICE candidates the connection may use: all of them, or only
/// relayed ones.  `raw_value` gives the numeric code the native API uses.
#[derive(Debug, PartialEq, Eq, Structural, Clone, Copy)]
pub enum TransportPolicy {
    All,
    Relay,
}

impl TransportPolicy {
    /// The native code of the policy.
    pub open spec fn spec_raw_value(self) -> u32 {
        match self {
            TransportPolicy::All => 0,
            TransportPolicy::Relay => 1,
        }
    }

    pub fn raw_value(self) -> (r: u32)
        ensures
            r == self.spec_raw_value(),
    {
        match self {
            TransportPolicy::All => 0,
            TransportPolicy::Relay => 1,
        }
    }
}

/// The settings a peer connection is created with.  Every string in it
/// crosses the native boundary as a C string, so each must stay free of
/// nul characters.
#[derive(Debug)]
pub struct RtcConfig {
    pub ice_servers: Vec<String>,
    pub proxy_server: Option<String>,
    pub bind_address: Option<String>,
    pub certificate_type: CertificateType,
    pub ice_transport_policy: TransportPolicy,
    pub enable_ice_tcp: bool,
    pub enable_ice_udp_mux: bool,
    pub port_range_begin: u16,
    pub port_range_end: u16,
    pub mtu: i32,
    pub max_message_size: i32,
    pub disable_auto_negotiation: bool,
    pub force_media_transport: bool,
}

impl RtcConfig {
    /// A configuration with the given ICE servers and every other setting
    /// at its idle value.
    pub fn new(ice_servers: &[String]) -> (r: Self)
        requires
            forall|i: int| 0 <= i < ice_servers@.len() ==> nul_free(ice_servers@[i]@),
        ensures
            r.ice_servers@.len() == ice_servers@.len(),
            forall|i: int| 0 <= i < ice_servers@.len() ==> r.ice_servers@[i]@ == ice_servers@[i]@,
            r.proxy_server is None,
            r.bind_address is None,
            r.certificate_type == CertificateType::Default,
            r.ice_transport_policy == TransportPolicy::All,
            !r.enable_ice_tcp,
            !r.enable_ice_udp_mux,
            r.port_range_begin == 0u16,
            r.port_range_end == 0u16,
            r.mtu == 0i32,
            r.max_message_size == 0i32,
            !r.disable_auto_negotiation,
            !r.force_media_transport,
    {
        let mut servers: Vec<String> = Vec::new();
        let mut i: usize = 0;
        while i < ice_servers.len()
            invariant
                i <= ice_servers@.len(),
                servers@.len() == i,
                forall|j: int| 0 <= j < i ==> servers@[j]@ == ice_servers@[j]@,
            decreases ice_servers@.len() - i,
        {
            servers.push(ice_servers[i].clone());
            i += 1;
        }
        RtcConfig {
            ice_servers: servers,
            proxy_server: None,
            bind_address: None,
            certificate_type: CertificateType::Default,
            ice_transport_policy: TransportPolicy::All,
            enable_ice_tcp: false,
            enable_ice_udp_mux: false,
            port_range_begin: 0,
            port_range_end: 0,
            mtu: 0,
            max_message_size: 0,
            disable_auto_negotiation: false,
            force_media_transport: false,
        }
    }

    pub fn bind_address(self, addr: &str) -> (r: Self)
        requires
            nul_free(addr@),
        ensures
            r.bind_address is Some && r.bind_address->Some_0@ == addr@,
            r == (RtcConfig { bind_address: r.bind_address, ..self }),
    {
        let mut s = self;
        s.bind_address = Some(addr.to_owned());
        s
    }

    pub fn proxy_server(self, server: &str) -> (r: Self)
        requires
            nul_free(server@),
        ensures
            r.proxy_server is Some && r.proxy_server->Some_0@ == server@,
            r == (RtcConfig { proxy_server: r.proxy_server, ..self }),
    {
        let mut s = self;
        s.proxy_server = Some(server.to_owned());
        s
    }

    pub fn certificate_type(self, certificate_type: CertificateType) -> (r: Self)
        ensures
            r == (RtcConfig { certificate_type, ..self }),
    {
        let mut s = self;
        s.certificate_type = certificate_type;
        s
    }

    pub fn enable_ice_tcp(self) -> (r: Self)
        ensures
            r == (RtcConfig { enable_ice_tcp: true, ..self }),
    {
        let mut s = self;
        s.enable_ice_tcp = true;
        s
    }

    pub fn enable_ice_udp_mux(self) -> (r: Self)
        ensures
            r == (RtcConfig { enable_ice_udp_mux: true, ..self }),
    {
        let mut s = self;
        s.enable_ice_udp_mux = true;
        s
    }

    pub fn ice_transport_policy(self, ice_transport_policy: TransportPolicy) -> (r: Self)
        ensures
            r == (RtcConfig { ice_transport_policy, ..self }),
    {
        let mut s = self;
        s.ice_transport_policy = ice_transport_policy;
        s
    }

    pub fn port_range_begin(self, port_range_begin: u16) -> (r: Self)
        ensures
            r == (RtcConfig { port_range_begin, ..self }),
    {
        let mut s = self;
        s.port_range_begin = port_range_begin;
        s
    }

    pub fn port_range_end(self, port_range_end: u16) -> (r: Self)
        ensures
            r == (RtcConfig { port_range_end, ..self }),
    {
        let mut s = self;
        s.port_range_end = port_range_end;
        s
    }

    pub fn mtu(self, mtu: i32) -> (r: Self)
        ensures
            r == (RtcConfig { mtu, ..self }),
    {
        let mut s = self;
        s.mtu = mtu;
        s
    }

    pub fn max_message_size(self, max_message_size: i32) -> (r: Self)
        ensures
            r == (RtcConfig { max_message_size, ..self }),
    {
        let mut s = self;
        s.max_message_size = max_message_size;
        s
    }

    pub fn disable_auto_negotiation(self) -> (r: Self)
        ensures
            r == (RtcConfig { disable_auto_negotiation: true, ..self }),
    {
        let mut s = self;
        s.disable_auto_negotiation = true;
        s
    }

    pub fn force_media_transport(self) -> (r: Self)
        ensures
            r == (RtcConfig { force_media_transport: true, ..self }),
    {
        let mut s = self;
        s.force_media_transport = true;
        s
    }
}

impl Clone for RtcConfig {
    fn clone(&self) -> (r: Self)
        ensures
            r.ice_servers@.len() == self.ice_servers@.len(),
            forall|i: int|
                0 <= i < self.ice_servers@.len() ==> r.ice_servers@[i]@ == self.ice_servers@[i]@,
            match r.proxy_server {
                Some(p) => self.proxy_server is Some && p@ == self.proxy_server->Some_0@,
                None => self.proxy_server is None,
            },
            match r.bind_address {
                Some(a) => self.bind_address is Some && a@ == self.bind_address->Some_0@,
                None => self.bind_address is None,
            },
            r.certificate_type == self.certificate_type,
            r.ice_transport_policy == self.ice_transport_policy,
            r.enable_ice_tcp == self.enable_ice_tcp,
            r.enable_ice_udp_mux == self.enable_ice_udp_mux,
            r.port_range_begin == self.port_range_begin,
            r.port_range_end == self.port_range_end,
            r.mtu == self.mtu,
            r.max_message_size == self.max_message_size,
            r.disable_auto_negotiation == self.disable_auto_negotiation,
            r.force_media_transport == self.force_media_transport,
    {
        let mut servers: Vec<String> = Vec::new();
        let mut i: usize = 0;
        while i < self.ice_servers.len()
            invariant
                i <= self.ice_servers@.len(),
                servers@.len() == i,
                forall|j: int| 0 <= j < i ==> servers@[j]@ == self.ice_servers@[j]@,
            decreases self.ice_servers@.len() - i,
        {
            servers.push(self.ice_servers[i].clone());
            i += 1;
        }
        RtcConfig {
            ice_servers: servers,
            proxy_server: match &self.proxy_server {
                Some(p) => Some(p.clone()),
                None => None,
            },
            bind_address: match &self.bind_address {
                Some(a) => Some(a.clone()),
                None => None,
            },
            certificate_type: self.certificate_type,
            ice_transport_policy: self.ice_transport_policy,
            enable_ice_tcp: self.enable_ice_tcp,
            enable_ice_udp_mux: self.enable_ice_udp_mux,
            port_range_begin: self.port_range_begin,
            port_range_end: self.port_range_end,
            mtu: self.mtu,
            max_message_size: self.max_message_size,
            disable_auto_negotiation: self.disable_auto_negotiation,
            force_media_transport: self.force_media_transport,
        }
    }
}

} // verus!
