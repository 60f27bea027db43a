use vstd::prelude::*;

verus! {

// The SDP parser crate's types are opaque here: the library carries their
// values through, and only the parser crate reads or prints them.

/// webrtc_sdp's parsed form of a whole session description.
#[verifier::external_type_specification]
#[verifier::external_body]
pub struct ExSdpSession(webrtc_sdp::SdpSession);

/// webrtc_sdp's parsed form of one media section.
#[verifier::external_type_specification]
#[verifier::external_body]
pub struct ExSdpMedia(webrtc_sdp::media_type::SdpMedia);

/// Whether webrtc_sdp::parse_sdp accepts a session description text.
/// Its success depends on the text and the strictness flag alone.
pub uninterp spec fn sdp_parses(s: Seq<char>, fail_on_warning: bool) -> bool;

/// Whether webrtc_sdp::parse_sdp_line accepts one line of SDP.  Its
/// success depends on the line text alone: the line number it also takes
/// flows only into error reports and a stored field.
pub uninterp spec fn sdp_line_parses(line: Seq<char>) -> bool;

/// Whether a list of line texts is a track description: every line is
/// accepted by webrtc_sdp::parse_sdp_line, and the parsed lines are
/// gathered into media sections by webrtc_sdp::media_type's
/// parse_media_vector.  Both steps depend on the line texts alone.
pub uninterp spec fn track_media_parses(lines: Seq<Seq<char>>) -> bool;

/// Relies on webrtc_sdp::parse_sdp to parse a whole session description:
/// it succeeds on exactly the texts `sdp_parses` names.  Its source
/// rejects any input shorter than the smallest valid session, in
/// particular the empty string.  The error is carried as its rendered
/// text.
#[verifier::external_body]
pub(crate) fn parse_sdp(sdp: &str, fail_on_warning: bool) -> (r: Result<
    webrtc_sdp::SdpSession,
    String,
>)
    ensures
        r is Ok <==> sdp_parses(sdp@, fail_on_warning),
        sdp@.len() == 0 ==> r is Err,
{
    webrtc_sdp::parse_sdp(sdp, fail_on_warning).map_err(|e| e.to_string())
}

/// Relies on the Display form of webrtc_sdp::SdpSession, which prints the
/// session back in SDP form, one CRLF-terminated line per field.
#[verifier::external_body]
pub(crate) fn session_to_string(sdp: &webrtc_sdp::SdpSession) -> String {
    sdp.to_string()
}

/// Relies on webrtc_sdp::parse_sdp_line and on webrtc_sdp::media_type's
/// parse_media_vector, composed: parses each line text — the line number
/// handed along only flows into error reports — and gathers the parsed
/// lines into media sections.  It succeeds on exactly the line lists
/// `track_media_parses` names, and on such a list every line parses on
/// its own.  parse_media_vector's source removes the first line
/// unconditionally, so the list must not be empty.
#[verifier::external_body]
pub(crate) fn parse_media_lines(lines: &Vec<String>) -> (r: Option<
    Vec<webrtc_sdp::media_type::SdpMedia>,
>)
    requires
        lines@.len() > 0,
    ensures
        r is Some <==> track_media_parses(lines.deep_view()),
        r is Some ==> forall|k: int| 0 <= k < lines@.len() ==> sdp_line_parses(lines@[k]@),
{
    let mut parsed: Vec<webrtc_sdp::SdpLine> = Vec::new();
    for (i, line) in lines.iter().enumerate() {
        match webrtc_sdp::parse_sdp_line(line, i) {
            Ok(l) => parsed.push(l),
            Err(_) => return None,
        }
    }
    webrtc_sdp::media_type::parse_media_vector(&mut parsed).ok()
}

} // verus!
