use datachannel::{
    fmt_sdp, fmt_sdp_text, parse_session_description, parse_track_description,
    session_from_strings, split_lines, Codec, ConnectionState, DataChannelId, DataChannelInfo,
    Direction, Error, GatheringState, IceCandidate, IceState, PeerConnectionId, Reliability,
    RtcPeerConnection, RtcTrack, SdpType, SignalingState,
};

const MINIMAL_SDP: &str = "v=0\r\no=- 0 0 IN IP6 ::1\r\ns=-\r\nc=IN IP6 ::1\r\nt=0 0\r\n";

#[test]
fn connection_states_come_from_their_codes() {
    assert_eq!(ConnectionState::from_raw(0), ConnectionState::New);
    assert_eq!(ConnectionState::from_raw(1), ConnectionState::Connecting);
    assert_eq!(ConnectionState::from_raw(2), ConnectionState::Connected);
    assert_eq!(ConnectionState::from_raw(3), ConnectionState::Disconnected);
    assert_eq!(ConnectionState::from_raw(4), ConnectionState::Failed);
    assert_eq!(ConnectionState::from_raw(5), ConnectionState::Closed);
}

#[test]
fn gathering_states_come_from_their_codes() {
    assert_eq!(GatheringState::from_raw(0), GatheringState::New);
    assert_eq!(GatheringState::from_raw(1), GatheringState::InProgress);
    assert_eq!(GatheringState::from_raw(2), GatheringState::Complete);
}

#[test]
fn signaling_states_come_from_their_codes() {
    assert_eq!(SignalingState::from_raw(0), SignalingState::Stable);
    assert_eq!(SignalingState::from_raw(1), SignalingState::HaveLocalOffer);
    assert_eq!(SignalingState::from_raw(2), SignalingState::HaveRemoteOffer);
    assert_eq!(SignalingState::from_raw(3), SignalingState::HaveLocalPranswer);
    assert_eq!(SignalingState::from_raw(4), SignalingState::HaveRemotePranswer);
}

#[test]
fn ice_states_come_from_their_codes() {
    assert_eq!(IceState::from_raw(0), IceState::New);
    assert_eq!(IceState::from_raw(1), IceState::Checking);
    assert_eq!(IceState::from_raw(2), IceState::Connected);
    assert_eq!(IceState::from_raw(3), IceState::Completed);
    assert_eq!(IceState::from_raw(4), IceState::Failed);
    assert_eq!(IceState::from_raw(5), IceState::Disconnected);
    assert_eq!(IceState::from_raw(6), IceState::Closed);
}

#[test]
fn sdp_type_names_round_trip() {
    for t in [
        SdpType::Answer,
        SdpType::Offer,
        SdpType::Pranswer,
        SdpType::Rollback,
    ] {
        assert!(matches!(SdpType::from(t.val()), Ok(parsed) if parsed == t));
    }
    assert_eq!(SdpType::Answer.val(), "answer");
    assert_eq!(SdpType::Offer.val(), "offer");
    assert_eq!(SdpType::Pranswer.val(), "pranswer");
    assert_eq!(SdpType::Rollback.val(), "rollback");
}

#[test]
fn sdp_type_rejects_unknown_names() {
    assert!(matches!(SdpType::from("OFFER"), Err(Error::InvalidArg)));
    assert!(matches!(SdpType::from(""), Err(Error::InvalidArg)));
    assert!(matches!(SdpType::from("offers"), Err(Error::InvalidArg)));
}

#[test]
fn fmt_sdp_text_joins_lines_and_trims_the_end() {
    assert_eq!(fmt_sdp_text("v=0\r\no=-\r\n"), "v=0; o=-");
    assert_eq!(fmt_sdp_text("a\r\n\r\nb"), "a; ; b");
    assert_eq!(fmt_sdp_text(""), "");
    assert_eq!(fmt_sdp_text("  \r\n\t"), "");
    assert_eq!(fmt_sdp_text("plain"), "plain");
    assert_eq!(fmt_sdp_text("keep\ninner"), "keep\ninner");
}

#[test]
fn fmt_sdp_prints_a_session_on_one_line() {
    let desc = parse_session_description(MINIMAL_SDP, "offer").unwrap();
    let expected = desc.sdp.to_string().trim_end().replace("\r\n", "; ");
    assert_eq!(fmt_sdp(&desc.sdp), expected);
    assert!(!fmt_sdp(&desc.sdp).contains('\r'));
}

#[test]
fn parse_session_description_accepts_a_valid_session() {
    let desc = parse_session_description(MINIMAL_SDP, "answer").unwrap();
    assert_eq!(desc.sdp_type, SdpType::Answer);
    assert_eq!(desc.sdp.version, 0);
}

#[test]
fn parse_session_description_rejects_bad_input() {
    assert!(matches!(
        parse_session_description(MINIMAL_SDP, "greeting"),
        Err(Error::InvalidArg)
    ));
    assert!(matches!(
        parse_session_description("", "offer"),
        Err(Error::BadString(_))
    ));
    assert!(matches!(
        parse_session_description("v=0\r\n", "offer"),
        Err(Error::BadString(_))
    ));
}

#[test]
fn session_from_strings_needs_both_parts() {
    assert!(session_from_strings(None, None).is_none());
    assert!(session_from_strings(Some(String::from(MINIMAL_SDP)), None).is_none());
    assert!(session_from_strings(None, Some(String::from("offer"))).is_none());
    assert!(
        session_from_strings(Some(String::from(MINIMAL_SDP)), Some(String::from("nope")))
            .is_none()
    );
    let desc = session_from_strings(
        Some(String::from(MINIMAL_SDP)),
        Some(String::from("pranswer")),
    )
    .unwrap();
    assert_eq!(desc.sdp_type, SdpType::Pranswer);
}

#[test]
fn split_lines_keeps_every_piece() {
    assert_eq!(split_lines("a\nbb\nc"), vec!["a", "bb", "c"]);
    assert_eq!(split_lines(""), vec![""]);
    assert_eq!(split_lines("one"), vec!["one"]);
    assert_eq!(split_lines("end\n"), vec!["end", ""]);
    assert_eq!(split_lines("\nstart"), vec!["", "start"]);
}

#[test]
fn direction_codes_round_trip() {
    for d in [
        Direction::Unknown,
        Direction::SendOnly,
        Direction::RecvOnly,
        Direction::SendRecv,
        Direction::Inactive,
    ] {
        let code = d.raw_value();
        assert_eq!(Direction::try_from(code).unwrap().raw_value(), code);
    }
    assert!(Direction::try_from(5).is_err());
}

#[test]
fn codec_raw_codes() {
    assert_eq!(Codec::H264.raw_value(), 0);
    assert_eq!(Codec::VP8.raw_value(), 1);
    assert_eq!(Codec::VP9.raw_value(), 2);
    assert_eq!(Codec::Opus.raw_value(), 3);
}

#[test]
fn track_description_parses_media_sections() {
    let media = parse_track_description("m=audio 9 UDP/TLS/RTP/SAVPF 109").unwrap();
    assert_eq!(media.len(), 1);
    let media = parse_track_description("m=audio 9 UDP/TLS/RTP/SAVPF 109\na=sendrecv").unwrap();
    assert_eq!(media.len(), 1);
    assert!(parse_track_description("not an sdp line").is_none());
    assert!(parse_track_description("a=sendrecv").is_none());
    assert!(parse_track_description("").is_none());
}

#[test]
fn media_prefix_is_stripped_only_when_present() {
    assert_eq!(
        datachannel::strip_media_prefix("m=audio 9 UDP/TLS/RTP/SAVPF 109"),
        "audio 9 UDP/TLS/RTP/SAVPF 109"
    );
    assert_eq!(datachannel::strip_media_prefix("audio 9"), "audio 9");
    assert_eq!(datachannel::strip_media_prefix("m="), "");
    assert_eq!(datachannel::strip_media_prefix("m"), "m");
    assert_eq!(datachannel::strip_media_prefix(""), "");
}

struct QuietTrack;

impl datachannel::TrackHandler for QuietTrack {}

#[test]
fn track_getters_report_what_it_was_announced_with() {
    let track = RtcTrack::new(
        4,
        String::from("m=audio 9 UDP/TLS/RTP/SAVPF 109"),
        String::from("audio-1"),
        Direction::SendRecv,
        QuietTrack,
    );
    assert_eq!(track.mid(), "audio-1");
    assert!(matches!(track.direction(), Direction::SendRecv));
    assert_eq!(track.description().unwrap().len(), 1);
}

struct Recording {
    log: std::rc::Rc<std::cell::RefCell<Vec<String>>>,
}

struct ChannelProbe;

impl datachannel::DataChannelHandler for ChannelProbe {}

impl datachannel::PeerConnectionHandler for Recording {
    type DCH = ChannelProbe;

    fn data_channel_handler(&mut self, info: DataChannelInfo) -> ChannelProbe {
        self.log.borrow_mut().push(format!("channel {}", info.label));
        ChannelProbe
    }

    fn on_description(&mut self, sess_desc: datachannel::SessionDescription) {
        self.log
            .borrow_mut()
            .push(format!("description {}", sess_desc.sdp_type.val()));
    }

    fn on_candidate(&mut self, cand: IceCandidate) {
        self.log
            .borrow_mut()
            .push(format!("candidate on {}", cand.mid));
    }

    fn on_connection_state_change(&mut self, state: ConnectionState) {
        self.log
            .borrow_mut()
            .push(format!("state {:?}", state));
    }

    fn on_data_channel(&mut self, data_channel: Box<datachannel::RtcDataChannel<ChannelProbe>>) {
        self.log
            .borrow_mut()
            .push(format!("opened channel {}", data_channel.label()));
    }
}

#[test]
fn peer_connection_dispatches_its_events() {
    let log = std::rc::Rc::new(std::cell::RefCell::new(Vec::new()));
    let handler = Recording {
        log: std::rc::Rc::clone(&log),
    };
    let mut pc = RtcPeerConnection::new(PeerConnectionId(11), handler);
    assert_eq!(pc.id(), PeerConnectionId(11));
    pc.handle_local_description(MINIMAL_SDP, "offer");
    pc.handle_local_description(MINIMAL_SDP, "bogus");
    pc.handle_local_description("too short", "offer");
    pc.handle_local_candidate("candidate:1 1 UDP 2122252543 10.0.0.2 40000 typ host", "0");
    pc.handle_state_change(2);
    pc.handle_data_channel(DataChannelInfo {
        id: DataChannelId(5),
        label: String::from("announced"),
        protocol: None,
        reliability: Reliability::default(),
        stream: 1,
    });
    assert_eq!(
        *log.borrow(),
        vec![
            "description offer",
            "candidate on 0",
            "state Connected",
            "channel announced",
            "opened channel announced"
        ]
    );
}
