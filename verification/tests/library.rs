use datachannel::{
    amount_from_code, buffered_amount_low_threshold_code, candidate_pair_from_buffers, check,
    ffi_string, label_from_buffer, protocol_from_buffer, string_from_buffer, CertificateType,
    DataChannelId, DataChannelInfo, DataChannelInit, Error, Reliability, RtcConfig,
    RtcDataChannel, TransportPolicy,
};

#[test]
fn check_passes_non_negative_codes_through() {
    assert!(matches!(check(0), Ok(0)));
    assert!(matches!(check(17), Ok(17)));
}

#[test]
fn check_maps_each_negative_code_to_its_kind() {
    assert!(matches!(check(-1), Err(Error::InvalidArg)));
    assert!(matches!(check(-2), Err(Error::Runtime)));
    assert!(matches!(check(-3), Err(Error::NotAvailable)));
    assert!(matches!(check(-4), Err(Error::TooSmall)));
    assert!(matches!(check(-5), Err(Error::Unkown)));
    assert!(matches!(check(i32::MIN), Err(Error::Unkown)));
}

#[test]
fn error_messages_render_each_kind() {
    assert_eq!(Error::InvalidArg.message(), "InvalidArg");
    assert_eq!(Error::Runtime.message(), "RuntimeError");
    assert_eq!(Error::NotAvailable.message(), "NotAvailable");
    assert_eq!(Error::TooSmall.message(), "TooSmall");
    assert_eq!(Error::Unkown.message(), "UnknownError");
    assert_eq!(
        Error::BadString(String::from("oops")).message(),
        "BadString: oops"
    );
}

#[test]
fn config_new_starts_from_idle_settings() {
    let servers = vec![String::from("stun:stun.example.com:3478")];
    let conf = RtcConfig::new(&servers);
    assert_eq!(conf.ice_servers, servers);
    assert_eq!(conf.proxy_server, None);
    assert_eq!(conf.bind_address, None);
    assert_eq!(conf.certificate_type, CertificateType::Default);
    assert_eq!(conf.ice_transport_policy, TransportPolicy::All);
    assert!(!conf.enable_ice_tcp);
    assert!(!conf.enable_ice_udp_mux);
    assert_eq!(conf.port_range_begin, 0);
    assert_eq!(conf.port_range_end, 0);
    assert_eq!(conf.mtu, 0);
    assert_eq!(conf.max_message_size, 0);
    assert!(!conf.disable_auto_negotiation);
    assert!(!conf.force_media_transport);
}

#[test]
fn config_builders_set_their_fields() {
    let servers: Vec<String> = Vec::new();
    let conf = RtcConfig::new(&servers)
        .bind_address("10.0.0.2")
        .proxy_server("socks5://proxy:1080")
        .certificate_type(CertificateType::ECDSA)
        .ice_transport_policy(TransportPolicy::Relay)
        .enable_ice_tcp()
        .enable_ice_udp_mux()
        .port_range_begin(5000)
        .port_range_end(6000)
        .mtu(1200)
        .max_message_size(65536)
        .disable_auto_negotiation()
        .force_media_transport();
    assert_eq!(conf.bind_address.as_deref(), Some("10.0.0.2"));
    assert_eq!(conf.proxy_server.as_deref(), Some("socks5://proxy:1080"));
    assert_eq!(conf.certificate_type, CertificateType::ECDSA);
    assert_eq!(conf.ice_transport_policy, TransportPolicy::Relay);
    assert!(conf.enable_ice_tcp);
    assert!(conf.enable_ice_udp_mux);
    assert_eq!(conf.port_range_begin, 5000);
    assert_eq!(conf.port_range_end, 6000);
    assert_eq!(conf.mtu, 1200);
    assert_eq!(conf.max_message_size, 65536);
    assert!(conf.disable_auto_negotiation);
    assert!(conf.force_media_transport);
}

#[test]
fn config_clone_keeps_every_field() {
    let servers = vec![
        String::from("stun:a.example.com"),
        String::from("turn:b.example.com"),
    ];
    let conf = RtcConfig::new(&servers)
        .bind_address("192.168.1.1")
        .port_range_begin(4000);
    let copy = conf.clone();
    assert_eq!(copy.ice_servers, conf.ice_servers);
    assert_eq!(copy.bind_address, conf.bind_address);
    assert_eq!(copy.proxy_server, conf.proxy_server);
    assert_eq!(copy.certificate_type, conf.certificate_type);
    assert_eq!(copy.ice_transport_policy, conf.ice_transport_policy);
    assert_eq!(copy.port_range_begin, conf.port_range_begin);
    assert_eq!(copy.port_range_end, conf.port_range_end);
}

#[test]
fn certificate_and_policy_raw_codes() {
    assert_eq!(CertificateType::Default.raw_value(), 0);
    assert_eq!(CertificateType::ECDSA.raw_value(), 1);
    assert_eq!(CertificateType::RSA.raw_value(), 2);
    assert_eq!(TransportPolicy::All.raw_value(), 0);
    assert_eq!(TransportPolicy::Relay.raw_value(), 1);
}

#[test]
fn reliability_builders_set_their_fields() {
    let rel = Reliability::default();
    assert!(!rel.unordered);
    assert!(!rel.unreliable);
    assert_eq!(rel.max_packet_life_time, 0);
    assert_eq!(rel.max_retransmits, 0);
    let rel = rel
        .unordered()
        .unreliable()
        .max_packet_life_time(500)
        .max_retransmits(3);
    assert!(rel.unordered);
    assert!(rel.unreliable);
    assert_eq!(rel.max_packet_life_time, 500);
    assert_eq!(rel.max_retransmits, 3);
}

#[test]
fn data_channel_init_builders_set_their_fields() {
    let init = DataChannelInit::default()
        .reliability(Reliability::default().unordered())
        .protocol("chat-v1")
        .negotiated()
        .manual_stream()
        .stream(42);
    assert!(init.reliability.unordered);
    assert_eq!(init.protocol, "chat-v1");
    assert!(init.negotiated);
    assert!(init.manual_stream);
    assert_eq!(init.stream, 42);
}

#[test]
fn data_channel_getters_report_its_info() {
    struct Quiet;
    impl datachannel::DataChannelHandler for Quiet {}
    let info = DataChannelInfo {
        id: DataChannelId(7),
        label: String::from("ping-pong"),
        protocol: Some(String::from("chat-v1")),
        reliability: Reliability::default().unreliable(),
        stream: 3,
    };
    let dc = RtcDataChannel::new(info, Quiet);
    assert_eq!(dc.id(), DataChannelId(7));
    assert_eq!(dc.label(), "ping-pong");
    assert_eq!(dc.protocol().as_deref(), Some("chat-v1"));
    assert!(dc.reliability().unreliable);
    assert_eq!(dc.stream(), 3);
}

#[test]
fn data_channel_events_reach_the_handler() {
    struct Recorder {
        events: std::rc::Rc<std::cell::RefCell<Vec<String>>>,
    }
    impl datachannel::DataChannelHandler for Recorder {
        fn on_open(&mut self) {
            self.events.borrow_mut().push(String::from("open"));
        }
        fn on_closed(&mut self) {
            self.events.borrow_mut().push(String::from("closed"));
        }
        fn on_error(&mut self, err: &str) {
            self.events.borrow_mut().push(format!("error: {}", err));
        }
        fn on_message(&mut self, msg: &[u8]) {
            self.events
                .borrow_mut()
                .push(format!("message of {} bytes", msg.len()));
        }
        fn on_buffered_amount_low(&mut self) {
            self.events.borrow_mut().push(String::from("low"));
        }
        fn on_available(&mut self) {
            self.events.borrow_mut().push(String::from("available"));
        }
    }
    let events = std::rc::Rc::new(std::cell::RefCell::new(Vec::new()));
    let info = DataChannelInfo {
        id: DataChannelId(1),
        label: String::from("events"),
        protocol: None,
        reliability: Reliability::default(),
        stream: 0,
    };
    let mut dc = RtcDataChannel::new(
        info,
        Recorder {
            events: std::rc::Rc::clone(&events),
        },
    );
    dc.handle_open();
    dc.handle_message(b"hello");
    dc.handle_error("boom");
    dc.handle_buffered_amount_low();
    dc.handle_available();
    dc.handle_closed();
    assert_eq!(
        *events.borrow(),
        vec![
            "open",
            "message of 5 bytes",
            "error: boom",
            "low",
            "available",
            "closed"
        ]
    );
}

#[test]
fn amount_from_code_maps_failures_to_zero() {
    assert_eq!(amount_from_code(0), 0);
    assert_eq!(amount_from_code(4096), 4096);
    assert_eq!(amount_from_code(-1), 0);
    assert_eq!(amount_from_code(-3), 0);
}

#[test]
fn threshold_code_rejects_amounts_beyond_i32() {
    assert!(matches!(buffered_amount_low_threshold_code(0), Ok(0)));
    assert!(matches!(
        buffered_amount_low_threshold_code(70_000),
        Ok(70_000)
    ));
    assert!(matches!(
        buffered_amount_low_threshold_code(0x7fff_ffff),
        Ok(0x7fff_ffff)
    ));
    assert!(matches!(
        buffered_amount_low_threshold_code(0x8000_0000),
        Err(Error::InvalidArg)
    ));
}

#[test]
fn ffi_string_reads_a_filled_buffer() {
    assert_eq!(ffi_string(b"ping-pong\0").unwrap(), "ping-pong");
    assert_eq!(ffi_string(b"\0").unwrap(), "");
}

#[test]
fn ffi_string_rejects_malformed_buffers() {
    assert!(matches!(ffi_string(b""), Err(Error::BadString(_))));
    assert!(matches!(ffi_string(b"no nul"), Err(Error::BadString(_))));
    assert!(matches!(
        ffi_string(b"inner\0nul\0"),
        Err(Error::BadString(_))
    ));
    assert!(matches!(
        ffi_string(&[0xff, 0xfe, 0x00]),
        Err(Error::BadString(_))
    ));
}

#[test]
fn label_from_buffer_falls_back_to_empty() {
    assert_eq!(label_from_buffer(9, b"reliable\0"), "reliable");
    assert_eq!(label_from_buffer(-2, b"reliable\0"), "");
    assert_eq!(label_from_buffer(7, b"no nul"), "");
}

#[test]
fn protocol_from_buffer_reads_the_optional_protocol() {
    assert_eq!(
        protocol_from_buffer(8, b"chat-v1\0").as_deref(),
        Some("chat-v1")
    );
    assert_eq!(protocol_from_buffer(1, b"chat-v1\0"), None);
    assert_eq!(protocol_from_buffer(-1, b"chat-v1\0"), None);
    assert_eq!(protocol_from_buffer(8, b"no nul"), None);
}

#[test]
fn string_from_buffer_trims_the_nul_padding() {
    assert_eq!(
        string_from_buffer(12, b"10.0.0.2:40\0").as_deref(),
        Some("10.0.0.2:40")
    );
    assert_eq!(
        string_from_buffer(5, b"\0\0addr\0\0\0").as_deref(),
        Some("addr")
    );
    assert_eq!(string_from_buffer(-3, b"addr\0"), None);
    assert_eq!(string_from_buffer(5, &[0x80, 0x00]), None);
}

#[test]
fn candidate_pair_needs_both_buffers_intact() {
    let pair = candidate_pair_from_buffers(10, b"local cand\0", b"remote cand\0").unwrap();
    assert_eq!(pair.local, "local cand");
    assert_eq!(pair.remote, "remote cand");
    assert!(candidate_pair_from_buffers(-3, b"local\0", b"remote\0").is_none());
    assert!(candidate_pair_from_buffers(10, b"no nul", b"remote\0").is_none());
    assert!(candidate_pair_from_buffers(10, b"local\0", b"no nul").is_none());
}

#[test]
fn nul_free_guards_the_string_boundary() {
    assert!(datachannel::str_nul_free("stun:stun.example.com"));
    assert!(datachannel::str_nul_free(""));
    assert!(!datachannel::str_nul_free("bad\0string"));
}

#[test]
fn bytes_before_nul_reads_a_c_string_message() {
    assert_eq!(datachannel::bytes_before_nul(b"hello\0world"), b"hello");
    assert_eq!(datachannel::bytes_before_nul(b"\0rest"), b"");
    assert_eq!(datachannel::bytes_before_nul(b"no nul here"), b"no nul here");
    assert_eq!(datachannel::bytes_before_nul(b""), b"");
}
