use vstd::prelude::*;

use crate::datachannel::{DataChannelHandler, DataChannelInfo, RtcDataChannel};
use crate::error::Error;
use crate::sdp;
use crate::{ffi_string, spec_nul_terminated, str_eq, string_from_utf8};
use vstd::slice::slice_to_vec;
use vstd::string::{StrSliceExecFns, StringExecFns};
use vstd::utf8::{decode_utf8, valid_utf8};

verus! {

/// The connection states the native layer reports, together with the
/// numeric code each one arrives under.
#[derive(Debug, PartialEq, Eq)]
pub enum ConnectionState {
    New,
    Connecting,
    Connected,
    Disconnected,
    Failed,
    Closed,
}

impl ConnectionState {
    /// Which state a native connection-state code stands for.
    pub open spec fn spec_from_raw(state: u32) -> Option<ConnectionState> {
        if state == 0 {
            Some(ConnectionState::New)
        } else if state == 1 {
            Some(ConnectionState::Connecting)
        } else if state == 2 {
            Some(ConnectionState::Connected)
        } else if state == 3 {
            Some(ConnectionState::Disconnected)
        } else if state == 4 {
            Some(ConnectionState::Failed)
        } else if state == 5 {
            Some(ConnectionState::Closed)
        } else {
            None
        }
    }

    pub fn from_raw(state: u32) -> (r: Self)
        requires
            Self::spec_from_raw(state) is Some,
        ensures
            Some(r) == Self::spec_from_raw(state),
    {
        if state == 0 {
            Self::New
        } else if state == 1 {
            Self::Connecting
        } else if state == 2 {
            Self::Connected
        } else if state == 3 {
            Self::Disconnected
        } else if state == 4 {
            Self::Failed
        } else {
            Self::Closed
        }
    }
}

/// The candidate-gathering states the native layer reports.
#[derive(Debug, PartialEq, Eq)]
pub enum GatheringState {
    New,
    InProgress,
    Complete,
}

impl GatheringState {
    /// Which state a native gathering-state code stands for.
    pub open spec fn spec_from_raw(state: u32) -> Option<GatheringState> {
        if state == 0 {
            Some(GatheringState::New)
        } else if state == 1 {
            Some(GatheringState::InProgress)
        } else if state == 2 {
            Some(GatheringState::Complete)
        } else {
            None
        }
    }

    pub fn from_raw(state: u32) -> (r: Self)
        requires
            Self::spec_from_raw(state) is Some,
        ensures
            Some(r) == Self::spec_from_raw(state),
    {
        if state == 0 {
            Self::New
        } else if state == 1 {
            Self::InProgress
        } else {
            Self::Complete
        }
    }
}

/// The signaling states the native layer reports.
#[derive(Debug, PartialEq, Eq)]
pub enum SignalingState {
    Stable,
    HaveLocalOffer,
    HaveRemoteOffer,
    HaveLocalPranswer,
    HaveRemotePranswer,
}

impl SignalingState {
    /// Which state a native signaling-state code stands for.
    pub open spec fn spec_from_raw(state: u32) -> Option<SignalingState> {
        if state == 0 {
            Some(SignalingState::Stable)
        } else if state == 1 {
            Some(SignalingState::HaveLocalOffer)
        } else if state == 2 {
            Some(SignalingState::HaveRemoteOffer)
        } else if state == 3 {
            Some(SignalingState::HaveLocalPranswer)
        } else if state == 4 {
            Some(SignalingState::HaveRemotePranswer)
        } else {
            None
        }
    }

    pub fn from_raw(state: u32) -> (r: Self)
        requires
            Self::spec_from_raw(state) is Some,
        ensures
            Some(r) == Self::spec_from_raw(state),
    {
        if state == 0 {
            Self::Stable
        } else if state == 1 {
            Self::HaveLocalOffer
        } else if state == 2 {
            Self::HaveRemoteOffer
        } else if state == 3 {
            Self::HaveLocalPranswer
        } else {
            Self::HaveRemotePranswer
        }
    }
}

/// The ICE transport states the native layer reports.
#[derive(Debug, PartialEq, Eq)]
pub enum IceState {
    New,
    Checking,
    Connected,
    Completed,
    Failed,
    Disconnected,
    Closed,
}

impl IceState {
    /// Which state a native ICE-state code stands for.
    pub open spec fn spec_from_raw(state: u32) -> Option<IceState> {
        if state == 0 {
            Some(IceState::New)
        } else if state == 1 {
            Some(IceState::Checking)
        } else if state == 2 {
            Some(IceState::Connected)
        } else if state == 3 {
            Some(IceState::Completed)
        } else if state == 4 {
            Some(IceState::Failed)
        } else if state == 5 {
            Some(IceState::Disconnected)
        } else if state == 6 {
            Some(IceState::Closed)
        } else {
            None
        }
    }

    pub fn from_raw(state: u32) -> (r: Self)
        requires
            Self::spec_from_raw(state) is Some,
        ensures
            Some(r) == Self::spec_from_raw(state),
    {
        if state == 0 {
            Self::New
        } else if state == 1 {
            Self::Checking
        } else if state == 2 {
            Self::Connected
        } else if state == 3 {
            Self::Completed
        } else if state == 4 {
            Self::Failed
        } else if state == 5 {
            Self::Disconnected
        } else {
            Self::Closed
        }
    }
}

/// The pair of candidates a connection settled on, in their textual form.
#[derive(Debug, PartialEq, Eq, PartialOrd, Hash)]
pub struct CandidatePair {
    pub local: String,
    pub remote: String,
}

/// `s` without its trailing nul characters.
pub open spec fn spec_trim_end_nul(s: Seq<char>) -> Seq<char>
    decreases s.len(),
{
    if s.len() > 0 && s.last() == '\0' {
        spec_trim_end_nul(s.drop_last())
    } else {
        s
    }
}

/// `s` without its leading nul characters.
pub open spec fn spec_trim_start_nul(s: Seq<char>) -> Seq<char>
    decreases s.len(),
{
    if s.len() > 0 && s.first() == '\0' {
        spec_trim_start_nul(s.skip(1))
    } else {
        s
    }
}

/// `s` without the nul characters on either end.
pub open spec fn spec_trim_nuls(s: Seq<char>) -> Seq<char> {
    spec_trim_start_nul(spec_trim_end_nul(s))
}

fn trim_nuls(s: &str) -> (r: String)
    ensures
        r@ == spec_trim_nuls(s@),
{
    let len = s.unicode_len();
    let mut hi = len;
    proof {
        assert(s@.subrange(0, len as int) =~= s@);
    }
    while hi > 0 && s.get_char(hi - 1) == '\0'
        invariant
            len == s@.len(),
            hi <= len,
            spec_trim_end_nul(s@) == spec_trim_end_nul(s@.subrange(0, hi as int)),
        decreases hi,
    {
        proof {
            let cur = s@.subrange(0, hi as int);
            assert(cur.last() == s@[hi - 1]);
            assert(cur.drop_last() =~= s@.subrange(0, hi - 1));
        }
        hi = hi - 1;
    }
    proof {
        assert(spec_trim_end_nul(s@.subrange(0, hi as int)) =~= s@.subrange(0, hi as int));
    }
    let ghost trimmed_end = s@.subrange(0, hi as int);
    let mut lo: usize = 0;
    while lo < hi && s.get_char(lo) == '\0'
        invariant
            len == s@.len(),
            lo <= hi <= len,
            trimmed_end == s@.subrange(0, hi as int),
            spec_trim_start_nul(trimmed_end) == spec_trim_start_nul(
                s@.subrange(lo as int, hi as int),
            ),
        decreases hi - lo,
    {
        proof {
            let cur = s@.subrange(lo as int, hi as int);
            assert(cur.first() == s@[lo as int]);
            assert(cur.skip(1) =~= s@.subrange(lo + 1, hi as int));
        }
        lo = lo + 1;
    }
    proof {
        let cur = s@.subrange(lo as int, hi as int);
        if lo < hi {
            assert(cur.first() == s@[lo as int]);
        }
        assert(spec_trim_start_nul(cur) =~= cur);
    }
    let piece = s.substring_char(lo, hi);
    piece.to_owned()
}

/// What a native string query reports: the decoded buffer with the nul
/// padding trimmed off both ends — if the query succeeded and the buffer
/// holds valid UTF-8, else nothing.
pub fn string_from_buffer(code: i32, buf: &[u8]) -> (r: Option<String>)
    ensures
        code < 0 ==> r is None,
        code >= 0 ==> {
            &&& (r is Some <==> valid_utf8(buf@))
            &&& (r is Some ==> r->Some_0@ == spec_trim_nuls(decode_utf8(buf@)))
        },
{
    if code < 0 {
        return None;
    }
    match string_from_utf8(slice_to_vec(buf)) {
        Ok(s) => Some(trim_nuls(s.as_str())),
        Err(_) => None,
    }
}

/// The candidate pair a native query reports: the C strings it wrote into
/// the two buffers, when the query succeeded and both buffers read back
/// as strings.
pub fn candidate_pair_from_buffers(code: i32, local: &[u8], remote: &[u8]) -> (r: Option<
    CandidatePair,
>)
    ensures
        code < 0 ==> r is None,
        code >= 0 ==> (r is Some <==> spec_nul_terminated(local@) && valid_utf8(local@.drop_last())
            && spec_nul_terminated(remote@) && valid_utf8(remote@.drop_last())),
        r is Some ==> r->Some_0.local@ == decode_utf8(local@.drop_last()) && r->Some_0.remote@
            == decode_utf8(remote@.drop_last()),
{
    if code < 0 {
        return None;
    }
    let local_text = match ffi_string(local) {
        Ok(s) => s,
        Err(_) => {
            return None;
        },
    };
    let remote_text = match ffi_string(remote) {
        Ok(s) => s,
        Err(_) => {
            return None;
        },
    };
    Some(CandidatePair { local: local_text, remote: remote_text })
}

/// A session description: the parsed SDP together with its role in the
/// offer/answer exchange.
pub struct SessionDescription {
    pub sdp: webrtc_sdp::SdpSession,
    pub sdp_type: SdpType,
}

/// The role of a session description in the offer/answer exchange, with
/// the names the native API exchanges it under.
#[derive(Debug, PartialEq, Eq, Clone)]
pub enum SdpType {
    Answer,
    Offer,
    Pranswer,
    Rollback,
}

/// Which description type a type name stands for.
pub open spec fn spec_sdp_type_of(s: Seq<char>) -> Option<SdpType> {
    if s == "answer"@ {
        Some(SdpType::Answer)
    } else if s == "offer"@ {
        Some(SdpType::Offer)
    } else if s == "pranswer"@ {
        Some(SdpType::Pranswer)
    } else if s == "rollback"@ {
        Some(SdpType::Rollback)
    } else {
        None
    }
}

impl SdpType {
    /// The name this description type is exchanged under.
    pub open spec fn spec_val(self) -> Seq<char> {
        match self {
            SdpType::Answer => "answer"@,
            SdpType::Offer => "offer"@,
            SdpType::Pranswer => "pranswer"@,
            SdpType::Rollback => "rollback"@,
        }
    }

    pub fn from(val: &str) -> (r: Result<Self, Error>)
        ensures
            match spec_sdp_type_of(val@) {
                Some(t) => r == Result::<SdpType, Error>::Ok(t),
                None => r == Result::<SdpType, Error>::Err(Error::InvalidArg),
            },
    {
        if str_eq(val, "answer") {
            Ok(Self::Answer)
        } else if str_eq(val, "offer") {
            Ok(Self::Offer)
        } else if str_eq(val, "pranswer") {
            Ok(Self::Pranswer)
        } else if str_eq(val, "rollback") {
            Ok(Self::Rollback)
        } else {
            Err(Error::InvalidArg)
        }
    }

    pub fn val(&self) -> (r: &'static str)
        ensures
            r@ == self.spec_val(),
    {
        match self {
            Self::Answer => "answer",
            Self::Offer => "offer",
            Self::Pranswer => "pranswer",
            Self::Rollback => "rollback",
        }
    }
}

/// Reading a type name back yields the type it was printed from.
pub proof fn lemma_sdp_type_round_trip(t: SdpType)
    ensures
        spec_sdp_type_of(t.spec_val()) == Some(t),
{
    reveal_strlit("answer");
    reveal_strlit("offer");
    reveal_strlit("pranswer");
    reveal_strlit("rollback");
    match t {
        SdpType::Answer => {
            assert(spec_sdp_type_of("answer"@) == Some(SdpType::Answer));
        },
        SdpType::Offer => {
            assert("offer"@ != "answer"@) by {
                assert("offer"@.len() == 5);
                assert("answer"@.len() == 6);
            }
            assert(spec_sdp_type_of("offer"@) == Some(SdpType::Offer));
        },
        SdpType::Pranswer => {
            assert("pranswer"@ != "answer"@) by {
                assert("pranswer"@.len() == 8);
                assert("answer"@.len() == 6);
            }
            assert("pranswer"@ != "offer"@) by {
                assert("offer"@.len() == 5);
            }
            assert(spec_sdp_type_of("pranswer"@) == Some(SdpType::Pranswer));
        },
        SdpType::Rollback => {
            assert("rollback"@ != "answer"@) by {
                assert("rollback"@.len() == 8);
                assert("answer"@.len() == 6);
            }
            assert("rollback"@ != "offer"@) by {
                assert("offer"@.len() == 5);
            }
            assert("rollback"@ != "pranswer"@) by {
                assert("rollback"@[0] == 'r');
                assert("pranswer"@[0] == 'p');
            }
            assert(spec_sdp_type_of("rollback"@) == Some(SdpType::Rollback));
        },
    }
}

/// The characters `fmt_sdp` trims off the end of the printed session.
pub open spec fn spec_is_sdp_space(c: char) -> bool {
    c == ' ' || c == '\t' || c == '\n' || c == '\r'
}

/// `s` without its trailing whitespace.
pub open spec fn spec_trim_end(s: Seq<char>) -> Seq<char>
    decreases s.len(),
{
    if s.len() > 0 && spec_is_sdp_space(s.last()) {
        spec_trim_end(s.drop_last())
    } else {
        s
    }
}

/// `s` with every CRLF pair replaced by a semicolon and a space.
pub open spec fn spec_join_lines(s: Seq<char>) -> Seq<char>
    decreases s.len(),
{
    if s.len() == 0 {
        Seq::empty()
    } else if s.len() >= 2 && s[0] == '\r' && s[1] == '\n' {
        "; "@ + spec_join_lines(s.skip(2))
    } else {
        seq![s[0]] + spec_join_lines(s.skip(1))
    }
}

fn is_sdp_space(c: char) -> (r: bool)
    ensures
        r == spec_is_sdp_space(c),
{
    c == ' ' || c == '\t' || c == '\n' || c == '\r'
}

/// The single-line rendering of SDP text: trailing whitespace dropped,
/// then every CRLF line break shown as `; `.
pub fn fmt_sdp_text(s: &str) -> (r: String)
    ensures
        r@ == spec_join_lines(spec_trim_end(s@)),
{
    let len = s.unicode_len();
    let mut n = len;
    proof {
        assert(s@.subrange(0, len as int) =~= s@);
    }
    while n > 0 && is_sdp_space(s.get_char(n - 1))
        invariant
            len == s@.len(),
            n <= len,
            spec_trim_end(s@) == spec_trim_end(s@.subrange(0, n as int)),
        decreases n,
    {
        proof {
            let cur = s@.subrange(0, n as int);
            assert(cur.last() == s@[n - 1]);
            assert(cur.drop_last() =~= s@.subrange(0, n - 1));
        }
        n = n - 1;
    }
    proof {
        if n > 0 {
            assert(!spec_is_sdp_space(s@.subrange(0, n as int).last()));
        }
        assert(spec_trim_end(s@.subrange(0, n as int)) =~= s@.subrange(0, n as int));
    }
    let ghost trimmed = s@.subrange(0, n as int);
    let mut out = String::new();
    let mut i: usize = 0;
    while i < n
        invariant
            len == s@.len(),
            n <= len,
            i <= n,
            trimmed == s@.subrange(0, n as int),
            spec_join_lines(trimmed) == out@ + spec_join_lines(
                s@.subrange(i as int, n as int),
            ),
        decreases n - i,
    {
        let ghost rem = s@.subrange(i as int, n as int);
        proof {
            assert(rem[0] == s@[i as int]);
        }
        let c = s.get_char(i);
        if c == '\r' && i + 1 < n && s.get_char(i + 1) == '\n' {
            proof {
                assert(rem[1] == s@[i + 1]);
                assert(rem.skip(2) =~= s@.subrange(i + 2, n as int));
            }
            out.append("; ");
            i = i + 2;
        } else {
            proof {
                assert(rem.skip(1) =~= s@.subrange(i + 1, n as int));
                assert(seq![rem[0]] =~= s@.subrange(i as int, i + 1));
            }
            let piece = s.substring_char(i, i + 1);
            out.append(piece);
            i = i + 1;
        }
    }
    proof {
        assert(s@.subrange(n as int, n as int) =~= Seq::<char>::empty());
        assert(out@ =~= out@ + spec_join_lines(s@.subrange(n as int, n as int)));
    }
    out
}

/// The session printed on one line, for logs and debug output: its SDP
/// form with trailing whitespace dropped and the line breaks shown as
/// `; `.  The printing itself is the SDP crate's; `fmt_sdp_text` carries
/// the verified part.
pub fn fmt_sdp(sdp: &webrtc_sdp::SdpSession) -> String {
    let text = sdp::session_to_string(sdp);
    fmt_sdp_text(text.as_str())
}

/// An ICE candidate in its textual form, with the media identifier it
/// belongs to.
#[derive(Debug, PartialEq, Eq)]
pub struct IceCandidate {
    pub candidate: String,
    pub mid: String,
}

impl Clone for IceCandidate {
    fn clone(&self) -> (r: Self)
        ensures
            r.candidate@ == self.candidate@,
            r.mid@ == self.mid@,
    {
        IceCandidate { candidate: self.candidate.clone(), mid: self.mid.clone() }
    }
}

/// The callbacks a peer connection reports its events through.
/// `data_channel_handler` must be given; it builds the handler each
/// announced data channel is wired to.  Implementors override the other
/// events they care about; the rest are ignored.
#[allow(unused_variables)]
pub trait PeerConnectionHandler {
    type DCH;

    fn data_channel_handler(&mut self, info: DataChannelInfo) -> Self::DCH;

    fn on_description(&mut self, sess_desc: SessionDescription) {
    }

    fn on_candidate(&mut self, cand: IceCandidate) {
    }

    fn on_connection_state_change(&mut self, state: ConnectionState) {
    }

    fn on_gathering_state_change(&mut self, state: GatheringState) {
    }

    fn on_signaling_state_change(&mut self, state: SignalingState) {
    }

    fn on_ice_state_change(&mut self, state: IceState) {
    }

    fn on_data_channel(&mut self, data_channel: Box<RtcDataChannel<Self::DCH>>) {
    }
}

/// The handle under which the native library knows a peer connection.
#[derive(Debug, Clone, Copy, PartialEq, Eq, Structural, PartialOrd, Hash)]
pub struct PeerConnectionId(pub i32);

/// Builds a session description from the two strings the native layer
/// reports it as: the SDP text and the type name.  It succeeds exactly
/// when the type name is one of the four known ones and the parser
/// accepts the text; an unknown type name gives `InvalidArg`, a rejected
/// text gives `BadString` with the parser's account.
pub fn parse_session_description(sdp: &str, sdp_type: &str) -> (r: Result<SessionDescription, Error>)
    ensures
        r is Ok <==> spec_sdp_type_of(sdp_type@) is Some && sdp::sdp_parses(sdp@, false),
        spec_sdp_type_of(sdp_type@) is None ==> r == Result::<SessionDescription, Error>::Err(
            Error::InvalidArg,
        ),
        r is Ok ==> spec_sdp_type_of(sdp_type@) == Some(r->Ok_0.sdp_type),
        spec_sdp_type_of(sdp_type@) is Some && r is Err ==> r->Err_0 is BadString,
        sdp@.len() == 0 ==> r is Err,
{
    let parsed_type = match SdpType::from(sdp_type) {
        Ok(t) => t,
        Err(e) => {
            return Err(e);
        },
    };
    match sdp::parse_sdp(sdp, false) {
        Ok(session) => Ok(SessionDescription { sdp: session, sdp_type: parsed_type }),
        Err(msg) => Err(Error::BadString(msg)),
    }
}

/// Combines what the native layer reports of a negotiated description —
/// the SDP text and the type name, each possibly missing — into a session
/// description: there is one exactly when both strings are present, the
/// type name is one of the four known ones, and the parser accepts the
/// text.
pub fn session_from_strings(sdp: Option<String>, sdp_type: Option<String>) -> (r: Option<
    SessionDescription,
>)
    ensures
        r is Some <==> sdp is Some && sdp_type is Some && spec_sdp_type_of(sdp_type->Some_0@)
            is Some && sdp::sdp_parses(sdp->Some_0@, false),
        r is Some ==> spec_sdp_type_of(sdp_type->Some_0@) == Some(r->Some_0.sdp_type),
{
    match sdp {
        Some(sdp_text) => match sdp_type {
            Some(type_text) => match parse_session_description(
                sdp_text.as_str(),
                type_text.as_str(),
            ) {
                Ok(desc) => Some(desc),
                Err(_) => None,
            },
            None => None,
        },
        None => None,
    }
}

/// A peer connection: the handle the native layer knows it under, paired
/// with the handler that receives its events.  The `handle_*` methods are
/// the decision layer of the binding: each takes an event as the native
/// layer hands it over — raw state codes, C-string text already read into
/// plain strings — checks it, and dispatches it to the handler.
pub struct RtcPeerConnection<P> {
    id: PeerConnectionId,
    pc_handler: P,
}

impl<P> RtcPeerConnection<P> where P: PeerConnectionHandler, P::DCH: DataChannelHandler {
    /// The handle this connection was created under.
    pub closed spec fn spec_id(&self) -> PeerConnectionId {
        self.id
    }

    pub fn new(id: PeerConnectionId, pc_handler: P) -> (r: Box<Self>)
        ensures
            r.spec_id() == id,
    {
        Box::new(RtcPeerConnection { id, pc_handler })
    }

    pub fn id(&self) -> (r: PeerConnectionId)
        ensures
            r == self.spec_id(),
    {
        self.id
    }

    /// A local description was produced: hand it to the handler if both
    /// its SDP text and its type name parse, ignore it otherwise.
    pub fn handle_local_description(&mut self, sdp: &str, sdp_type: &str)
        ensures
            final(self).spec_id() == old(self).spec_id(),
    {
        match parse_session_description(sdp, sdp_type) {
            Ok(sess_desc) => self.pc_handler.on_description(sess_desc),
            Err(_) => (),
        }
    }

    /// A local candidate was gathered: hand it to the handler.
    pub fn handle_local_candidate(&mut self, candidate: &str, mid: &str)
        ensures
            final(self).spec_id() == old(self).spec_id(),
    {
        let cand = IceCandidate { candidate: candidate.to_owned(), mid: mid.to_owned() };
        self.pc_handler.on_candidate(cand);
    }

    /// The connection state changed; the code must be one the native API
    /// defines.
    pub fn handle_state_change(&mut self, state: u32)
        requires
            ConnectionState::spec_from_raw(state) is Some,
        ensures
            final(self).spec_id() == old(self).spec_id(),
    {
        let s = ConnectionState::from_raw(state);
        self.pc_handler.on_connection_state_change(s);
    }

    /// The gathering state changed; the code must be one the native API
    /// defines.
    pub fn handle_gathering_state_change(&mut self, state: u32)
        requires
            GatheringState::spec_from_raw(state) is Some,
        ensures
            final(self).spec_id() == old(self).spec_id(),
    {
        let s = GatheringState::from_raw(state);
        self.pc_handler.on_gathering_state_change(s);
    }

    /// The signaling state changed; the code must be one the native API
    /// defines.
    pub fn handle_signaling_state_change(&mut self, state: u32)
        requires
            SignalingState::spec_from_raw(state) is Some,
        ensures
            final(self).spec_id() == old(self).spec_id(),
    {
        let s = SignalingState::from_raw(state);
        self.pc_handler.on_signaling_state_change(s);
    }

    /// The ICE state changed; the code must be one the native API
    /// defines.
    pub fn handle_ice_state_change(&mut self, state: u32)
        requires
            IceState::spec_from_raw(state) is Some,
        ensures
            final(self).spec_id() == old(self).spec_id(),
    {
        let s = IceState::from_raw(state);
        self.pc_handler.on_ice_state_change(s);
    }

    /// A data channel was announced: ask the handler for the channel's own
    /// handler, wire the two together, and hand the channel back.
    pub fn handle_data_channel(&mut self, info: DataChannelInfo)
        ensures
            final(self).spec_id() == old(self).spec_id(),
    {
        let chan_info = info.clone();
        let dc_handler = self.pc_handler.data_channel_handler(info);
        let dc = RtcDataChannel::new(chan_info, dc_handler);
        self.pc_handler.on_data_channel(dc);
    }
}

} // verus!
