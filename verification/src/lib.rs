mod config;
mod datachannel;
mod error;
mod peerconnection;
mod sdp;
mod track;

pub use crate::config::{CertificateType, RtcConfig, TransportPolicy};
pub use crate::peerconnection::{
    candidate_pair_from_buffers, fmt_sdp, fmt_sdp_text, lemma_sdp_type_round_trip,
    parse_session_description, session_from_strings, spec_is_sdp_space, spec_join_lines,
    spec_sdp_type_of, spec_trim_end, spec_trim_end_nul, spec_trim_nuls, spec_trim_start_nul,
    string_from_buffer, CandidatePair, ConnectionState, GatheringState, IceCandidate, IceState,
    PeerConnectionHandler, PeerConnectionId, RtcPeerConnection, SdpType, SessionDescription,
    SignalingState,
};
pub use crate::datachannel::{
    amount_from_code, buffered_amount_low_threshold_code, label_from_buffer, protocol_from_buffer,
    DataChannelHandler, DataChannelId, DataChannelInfo, DataChannelInit, Reliability,
    RtcDataChannel,
};
pub use crate::error::{check, spec_error_of_code, spec_message, Error};
pub use crate::sdp::{sdp_line_parses, sdp_parses, track_media_parses};
pub use crate::track::{
    parse_track_description, spec_join, spec_split_lines, spec_strip_media_prefix, split_lines,
    strip_media_prefix, Codec, Direction, RtcTrack, TrackHandler, TrackInit,
};

use vstd::prelude::*;
use vstd::slice::{slice_index_get, slice_subrange, slice_to_vec};
use vstd::string::{StrSliceExecFns, StringExecFns};
use vstd::utf8::{decode_utf8, valid_utf8};

verus! {

/// Whether a string can cross the native boundary as a C string: it holds
/// no nul character.
pub open spec fn nul_free(s: Seq<char>) -> bool {
    forall|i: int| 0 <= i < s.len() ==> s[i] != '\0'
}

/// Character-wise string equality.
pub fn str_eq(a: &str, b: &str) -> (r: bool)
    ensures
        r == (a@ == b@),
{
    let a_len = a.unicode_len();
    let b_len = b.unicode_len();
    if a_len != b_len {
        return false;
    }
    let mut i: usize = 0;
    while i < a_len
        invariant
            a_len == a@.len(),
            b_len == b@.len(),
            a_len == b_len,
            i <= a_len,
            forall|j: int| 0 <= j < i ==> a@[j] == b@[j],
        decreases a_len - i,
    {
        if a.get_char(i) != b.get_char(i) {
            return false;
        }
        i += 1;
    }
    proof {
        assert(a@ =~= b@);
    }
    true
}

/// Tests `nul_free`, so that a caller holding an arbitrary string can
/// establish it before handing the string to a function that needs it.
pub fn str_nul_free(s: &str) -> (r: bool)
    ensures
        r == nul_free(s@),
{
    let len = s.unicode_len();
    let mut i: usize = 0;
    while i < len
        invariant
            len == s@.len(),
            i <= len,
            forall|j: int| 0 <= j < i ==> s@[j] != '\0',
        decreases len - i,
    {
        if s.get_char(i) == '\0' {
            return false;
        }
        i += 1;
    }
    true
}

/// Whether a byte buffer holds a C string that fills it: its one nul byte
/// stands at the end.
pub open spec fn spec_nul_terminated(b: Seq<u8>) -> bool {
    &&& b.len() > 0
    &&& b[b.len() - 1] == 0
    &&& forall|i: int| 0 <= i < b.len() - 1 ==> b[i] != 0
}

/// Relies on String::from_utf8: it succeeds exactly on the valid UTF-8
/// byte sequences and decodes them.  The error is carried as its rendered
/// text.
#[verifier::external_body]
pub(crate) fn string_from_utf8(bytes: Vec<u8>) -> (r: Result<String, String>)
    ensures
        r is Ok <==> valid_utf8(bytes@),
        r is Ok ==> r->Ok_0@ == decode_utf8(bytes@),
{
    std::string::String::from_utf8(bytes).map_err(|e| e.to_string())
}

/// The prefix of `b` that stands strictly before its first nul byte, or
/// all of `b` when it holds none.
pub open spec fn spec_before_nul(b: Seq<u8>) -> Seq<u8>
    decreases b.len(),
{
    if b.len() == 0 {
        b
    } else if b[0] == 0 {
        Seq::empty()
    } else {
        seq![b[0]] + spec_before_nul(b.skip(1))
    }
}

/// Reads a message the native layer hands over as a nul-terminated
/// string: the bytes strictly before the first nul, or the whole buffer
/// when no nul is there.
pub fn bytes_before_nul(buf: &[u8]) -> (r: &[u8])
    ensures
        r@ == spec_before_nul(buf@),
{
    let len = buf.len();
    let mut i: usize = 0;
    proof {
        assert(buf@.subrange(0, len as int) =~= buf@);
        assert(buf@.subrange(0, 0) =~= Seq::<u8>::empty());
        assert(Seq::<u8>::empty() + spec_before_nul(buf@) =~= spec_before_nul(buf@));
    }
    while i < len
        invariant
            len == buf@.len(),
            i <= len,
            spec_before_nul(buf@) == buf@.subrange(0, i as int) + spec_before_nul(
                buf@.subrange(i as int, len as int),
            ),
        decreases len - i,
    {
        if *slice_index_get(buf, i) == 0 {
            proof {
                let rem = buf@.subrange(i as int, len as int);
                assert(rem[0] == buf@[i as int]);
                assert(spec_before_nul(rem) =~= Seq::<u8>::empty());
                assert(buf@.subrange(0, i as int) + Seq::<u8>::empty() =~= buf@.subrange(
                    0,
                    i as int,
                ));
            }
            return slice_subrange(buf, 0, i);
        }
        proof {
            let rem = buf@.subrange(i as int, len as int);
            let rem2 = buf@.subrange(i + 1, len as int);
            assert(rem[0] == buf@[i as int]);
            assert(rem.skip(1) =~= rem2);
            assert(buf@.subrange(0, i as int) + (seq![buf@[i as int]] + spec_before_nul(rem2))
                =~= buf@.subrange(0, i + 1) + spec_before_nul(rem2));
        }
        i += 1;
    }
    proof {
        let rem = buf@.subrange(len as int, len as int);
        assert(rem =~= Seq::<u8>::empty());
        assert(buf@.subrange(0, len as int) + spec_before_nul(rem) =~= buf@);
    }
    slice_subrange(buf, 0, len)
}

/// Reads a buffer the native layer filled: a nul-terminated byte string
/// whose content must be valid UTF-8.  Any other buffer is a `BadString`.
pub fn ffi_string(ffi: &[u8]) -> (r: Result<String, Error>)
    ensures
        r is Ok <==> spec_nul_terminated(ffi@) && valid_utf8(ffi@.drop_last()),
        r is Ok ==> r->Ok_0@ == decode_utf8(ffi@.drop_last()),
        r is Err ==> r->Err_0 is BadString,
{
    let len = ffi.len();
    if len == 0 || *slice_index_get(ffi, len - 1) != 0 {
        return Err(Error::BadString(String::from_str("missing nul terminator")));
    }
    let mut i: usize = 0;
    while i < len - 1
        invariant
            len == ffi@.len(),
            0 < len,
            i <= len - 1,
            forall|j: int| 0 <= j < i ==> ffi@[j] != 0,
        decreases len - 1 - i,
    {
        if *slice_index_get(ffi, i) == 0 {
            return Err(Error::BadString(String::from_str("interior nul byte")));
        }
        i += 1;
    }
    let content = slice_subrange(ffi, 0, len - 1);
    proof {
        assert(content@ =~= ffi@.drop_last());
    }
    match string_from_utf8(slice_to_vec(content)) {
        Ok(s) => Ok(s),
        Err(msg) => Err(Error::BadString(msg)),
    }
}

} // verus!
