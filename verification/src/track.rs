use vstd::prelude::*;

use crate::sdp;
use vstd::string::{StrSliceExecFns, StringExecFns};

verus! {

/// The direction of a media track, with the numeric code the native API
/// uses for each.
#[derive(Debug, Clone, Copy)]
pub enum Direction {
    Unknown,
    SendOnly,
    RecvOnly,
    SendRecv,
    Inactive,
}

impl Direction {
    /// The native code of the direction.
    pub open spec fn spec_raw_value(self) -> u32 {
        match self {
            Direction::Unknown => 0,
            Direction::SendOnly => 1,
            Direction::RecvOnly => 2,
            Direction::SendRecv => 3,
            Direction::Inactive => 4,
        }
    }

    /// Which direction a native code stands for.
    pub open spec fn spec_from_raw(v: u32) -> Option<Direction> {
        if v == 0 {
            Some(Direction::Unknown)
        } else if v == 1 {
            Some(Direction::SendOnly)
        } else if v == 2 {
            Some(Direction::RecvOnly)
        } else if v == 3 {
            Some(Direction::SendRecv)
        } else if v == 4 {
            Some(Direction::Inactive)
        } else {
            None
        }
    }

    pub fn raw_value(self) -> (r: u32)
        ensures
            r == self.spec_raw_value(),
    {
        match self {
            Direction::Unknown => 0,
            Direction::SendOnly => 1,
            Direction::RecvOnly => 2,
            Direction::SendRecv => 3,
            Direction::Inactive => 4,
        }
    }
}

impl TryFrom<u32> for Direction {
    type Error = ();

    fn try_from(v: u32) -> (r: Result<Self, ()>)
        ensures
            r == match Self::spec_from_raw(v) {
                Some(d) => Result::<Direction, ()>::Ok(d),
                None => Result::<Direction, ()>::Err(()),
            },
    {
        if v == 0 {
            Ok(Self::Unknown)
        } else if v == 1 {
            Ok(Self::SendOnly)
        } else if v == 2 {
            Ok(Self::RecvOnly)
        } else if v == 3 {
            Ok(Self::SendRecv)
        } else if v == 4 {
            Ok(Self::Inactive)
        } else {
            Err(())
        }
    }
}

impl vstd::std_specs::convert::TryFromSpecImpl<u32> for Direction {
    open spec fn obeys_try_from_spec() -> bool {
        true
    }

    open spec fn try_from_spec(v: u32) -> Result<Self, ()> {
        match Self::spec_from_raw(v) {
            Some(d) => Ok(d),
            None => Err(()),
        }
    }
}

/// The codecs a media track can be created with, with the numeric code
/// the native API uses for each.
#[derive(Debug, Clone, Copy)]
pub enum Codec {
    H264,
    VP8,
    VP9,
    Opus,
}

impl Codec {
    /// The native code of the codec.
    pub open spec fn spec_raw_value(self) -> u32 {
        match self {
            Codec::H264 => 0,
            Codec::VP8 => 1,
            Codec::VP9 => 2,
            Codec::Opus => 3,
        }
    }

    pub fn raw_value(self) -> (r: u32)
        ensures
            r == self.spec_raw_value(),
    {
        match self {
            Codec::H264 => 0,
            Codec::VP8 => 1,
            Codec::VP9 => 2,
            Codec::Opus => 3,
        }
    }
}

/// The options a media track is created with.  Every string in it crosses
/// the native boundary as a C string, so each must stay free of nul
/// characters when it is handed over.
#[derive(Debug)]
pub struct TrackInit {
    pub direction: Direction,
    pub codec: Codec,
    pub payload_type: i32,
    pub ssrc: u32,
    pub mid: String,
    pub name: Option<String>,
    pub msid: Option<String>,
    pub track_id: Option<String>,
    pub profile: Option<String>,
}

/// The callbacks a media track reports its events through.  Implementors
/// override the events they care about; the rest are ignored.
#[allow(unused_variables)]
pub trait TrackHandler {
    fn on_open(&mut self) {
    }

    fn on_closed(&mut self) {
    }

    fn on_error(&mut self, err: &str) {
    }

    fn on_message(&mut self, msg: &[u8]) {
    }

    fn on_available(&mut self) {
    }
}

/// `pieces` joined into one string with `sep` between them.
pub open spec fn spec_join(pieces: Seq<Seq<char>>, sep: char) -> Seq<char>
    decreases pieces.len(),
{
    if pieces.len() == 0 {
        Seq::empty()
    } else if pieces.len() == 1 {
        pieces[0]
    } else {
        pieces[0] + seq![sep] + spec_join(pieces.skip(1), sep)
    }
}

/// The pieces of `s` between its line feeds, in order.
pub open spec fn spec_split_lines(s: Seq<char>) -> Seq<Seq<char>>
    decreases s.len(),
{
    if s.len() == 0 {
        seq![s]
    } else if s[0] == '\n' {
        seq![Seq::<char>::empty()] + spec_split_lines(s.skip(1))
    } else {
        let rest = spec_split_lines(s.skip(1));
        seq![seq![s[0]] + rest[0]] + rest.skip(1)
    }
}

proof fn lemma_split_lines_nonempty(s: Seq<char>)
    ensures
        spec_split_lines(s).len() >= 1,
    decreases s.len(),
{
    if s.len() > 0 {
        lemma_split_lines_nonempty(s.skip(1));
    }
}

proof fn lemma_split_lines_join(s: Seq<char>)
    ensures
        spec_join(spec_split_lines(s), '\n') == s,
    decreases s.len(),
{
    if s.len() == 0 {
    } else if s[0] == '\n' {
        lemma_split_lines_join(s.skip(1));
        lemma_split_lines_nonempty(s.skip(1));
        let rest = spec_split_lines(s.skip(1));
        let pieces = seq![Seq::<char>::empty()] + rest;
        assert(pieces.skip(1) =~= rest);
        assert(Seq::<char>::empty() + seq!['\n'] + s.skip(1) =~= s);
    } else {
        lemma_split_lines_join(s.skip(1));
        lemma_split_lines_nonempty(s.skip(1));
        let rest = spec_split_lines(s.skip(1));
        let pieces = seq![seq![s[0]] + rest[0]] + rest.skip(1);
        if rest.len() == 1 {
            assert(spec_join(rest, '\n') == rest[0]);
            assert(seq![s[0]] + s.skip(1) =~= s);
        } else {
            assert(pieces.skip(1) =~= rest.skip(1));
            assert(spec_join(rest, '\n') == rest[0] + seq!['\n'] + spec_join(rest.skip(1), '\n'));
            assert((seq![s[0]] + rest[0]) + seq!['\n'] + spec_join(rest.skip(1), '\n') =~= seq![
                s[0],
            ] + (rest[0] + seq!['\n'] + spec_join(rest.skip(1), '\n')));
            assert(seq![s[0]] + s.skip(1) =~= s);
        }
    }
}

proof fn lemma_split_lines_free(s: Seq<char>)
    ensures
        forall|k: int, j: int|
            0 <= k < spec_split_lines(s).len() && 0 <= j < spec_split_lines(s)[k].len()
                ==> spec_split_lines(s)[k][j] != '\n',
    decreases s.len(),
{
    if s.len() == 0 {
    } else if s[0] == '\n' {
        lemma_split_lines_free(s.skip(1));
        let rest = spec_split_lines(s.skip(1));
        let pieces = seq![Seq::<char>::empty()] + rest;
        assert forall|k: int, j: int|
            0 <= k < pieces.len() && 0 <= j < pieces[k].len() implies pieces[k][j] != '\n' by {
            if k > 0 {
                assert(pieces[k] == rest[k - 1]);
            }
        }
    } else {
        lemma_split_lines_free(s.skip(1));
        lemma_split_lines_nonempty(s.skip(1));
        let rest = spec_split_lines(s.skip(1));
        let pieces = seq![seq![s[0]] + rest[0]] + rest.skip(1);
        assert forall|k: int, j: int|
            0 <= k < pieces.len() && 0 <= j < pieces[k].len() implies pieces[k][j] != '\n' by {
            if k == 0 {
                if j > 0 {
                    assert(pieces[0][j] == rest[0][j - 1]);
                }
            } else {
                assert(pieces[k] == rest[k]);
            }
        }
    }
}

/// The first piece lengthened by what is still being read: the shape the
/// suffix's split takes once `cur` is put in front of it.
spec fn spec_glue(cur: Seq<char>, pieces: Seq<Seq<char>>) -> Seq<Seq<char>> {
    seq![cur + pieces[0]] + pieces.skip(1)
}

/// Splits `s` at every line feed, into exactly the pieces
/// `spec_split_lines` names.  The pieces hold no line feed, and put back
/// together with one line feed between each two they give `s` back;
/// splitting always yields at least one piece.
pub fn split_lines(s: &str) -> (r: Vec<String>)
    ensures
        r.deep_view() == spec_split_lines(s@),
        r@.len() >= 1,
        forall|k: int, j: int|
            0 <= k < r@.len() && 0 <= j < r@[k]@.len() ==> r@[k]@[j] != '\n',
        spec_join(r.deep_view(), '\n') == s@,
{
    let len = s.unicode_len();
    let mut out: Vec<String> = Vec::new();
    let mut cur = String::new();
    let mut i: usize = 0;
    proof {
        lemma_split_lines_nonempty(s@);
        assert(s@.subrange(0, len as int) =~= s@);
        assert(Seq::<char>::empty() + spec_split_lines(s@)[0] =~= spec_split_lines(s@)[0]);
        assert(spec_glue(Seq::<char>::empty(), spec_split_lines(s@)) =~= spec_split_lines(s@));
    }
    while i < len
        invariant
            len == s@.len(),
            i <= len,
            spec_split_lines(s@) == out.deep_view() + spec_glue(
                cur@,
                spec_split_lines(s@.subrange(i as int, len as int)),
            ),
        decreases len - i,
    {
        let ghost rem = s@.subrange(i as int, len as int);
        let ghost rem2 = s@.subrange(i + 1, len as int);
        proof {
            assert(rem[0] == s@[i as int]);
            assert(rem.skip(1) =~= rem2);
            lemma_split_lines_nonempty(rem2);
        }
        let c = s.get_char(i);
        if c == '\n' {
            let ghost prev_pieces = out.deep_view();
            let ghost prev_cur = cur@;
            proof {
                let rest = spec_split_lines(rem2);
                assert(spec_split_lines(rem) == seq![Seq::<char>::empty()] + rest);
                assert((seq![Seq::<char>::empty()] + rest).skip(1) =~= rest);
                assert(prev_cur + Seq::<char>::empty() =~= prev_cur);
                assert(spec_glue(prev_cur, spec_split_lines(rem)) =~= seq![prev_cur] + rest);
            }
            out.push(cur);
            cur = String::new();
            proof {
                let rest = spec_split_lines(rem2);
                assert(out.deep_view() =~= prev_pieces.push(prev_cur));
                assert(Seq::<char>::empty() + rest[0] =~= rest[0]);
                assert(spec_glue(cur@, rest) =~= rest);
                assert(prev_pieces + (seq![prev_cur] + rest) =~= prev_pieces.push(prev_cur)
                    + rest);
            }
        } else {
            let ghost prev_cur = cur@;
            proof {
                let rest = spec_split_lines(rem2);
                assert(spec_split_lines(rem) == seq![seq![s@[i as int]] + rest[0]] + rest.skip(
                    1,
                ));
                assert((seq![seq![s@[i as int]] + rest[0]] + rest.skip(1)).skip(1) =~= rest.skip(
                    1,
                ));
                assert(prev_cur + (seq![s@[i as int]] + rest[0]) =~= prev_cur.push(
                    s@[i as int],
                ) + rest[0]);
                assert(spec_glue(prev_cur, spec_split_lines(rem)) =~= spec_glue(
                    prev_cur.push(s@[i as int]),
                    rest,
                ));
            }
            let piece = s.substring_char(i, i + 1);
            cur.append(piece);
            proof {
                assert(cur@ =~= prev_cur.push(s@[i as int]));
            }
        }
        i += 1;
    }
    proof {
        let rem = s@.subrange(len as int, len as int);
        assert(rem =~= Seq::<char>::empty());
        assert(cur@ + spec_split_lines(rem)[0] =~= cur@);
        assert(spec_glue(cur@, spec_split_lines(rem)) =~= seq![cur@]);
    }
    let ghost last_pieces = out.deep_view();
    let ghost last_cur = cur@;
    out.push(cur);
    proof {
        assert(out.deep_view() =~= last_pieces.push(last_cur));
        assert(last_pieces + seq![last_cur] =~= last_pieces.push(last_cur));
        lemma_split_lines_join(s@);
        lemma_split_lines_free(s@);
        assert forall|k: int, j: int|
            0 <= k < out@.len() && 0 <= j < out@[k]@.len() implies out@[k]@[j] != '\n' by {
            assert(out.deep_view()[k] == out@[k]@);
        }
    }
    out
}

/// Reads a track description as the native layer prints it: one SDP line
/// per text line.  The media sections come back exactly when the split
/// lines form a track description; the line parsing and the gathering
/// are the SDP crate's, the line splitting is verified in `split_lines`.
pub fn parse_track_description(description: &str) -> (r: Option<
    Vec<webrtc_sdp::media_type::SdpMedia>,
>)
    ensures
        r is Some <==> sdp::track_media_parses(spec_split_lines(description@)),
        r is Some ==> forall|k: int|
            0 <= k < spec_split_lines(description@).len() ==> sdp::sdp_line_parses(
                spec_split_lines(description@)[k],
            ),
{
    let lines = split_lines(description);
    let media = sdp::parse_media_lines(&lines);
    proof {
        if media is Some {
            assert forall|k: int|
                0 <= k < spec_split_lines(description@).len() implies sdp::sdp_line_parses(
                spec_split_lines(description@)[k],
            ) by {
                assert(lines.deep_view()[k] == lines@[k]@);
            }
        }
    }
    media
}

/// The text a media line carries after its `m=` marker.  A printed media
/// line crosses to the native add-track call without the marker; a text
/// that does not start with one is handed over unchanged.
pub open spec fn spec_strip_media_prefix(s: Seq<char>) -> Seq<char> {
    if s.len() >= 2 && s[0] == 'm' && s[1] == '=' {
        s.skip(2)
    } else {
        s
    }
}

/// Drops a leading `m=` from a media line text, when it carries one.
pub fn strip_media_prefix(s: &str) -> (r: String)
    ensures
        r@ == spec_strip_media_prefix(s@),
{
    let len = s.unicode_len();
    if len >= 2 && s.get_char(0) == 'm' && s.get_char(1) == '=' {
        let rest = s.substring_char(2, len);
        proof {
            assert(s@.subrange(2, len as int) =~= s@.skip(2));
        }
        rest.to_owned()
    } else {
        s.to_owned()
    }
}

/// A media track: what the native layer reports of it — its handle, its
/// description text, its media identifier and its direction — paired with
/// the handler that receives its events.
pub struct RtcTrack<T> {
    id: i32,
    description: String,
    mid: String,
    direction: Direction,
    t_handler: T,
}

impl<T> RtcTrack<T> where T: TrackHandler {
    /// The handle this track was created under.
    pub closed spec fn spec_id(&self) -> i32 {
        self.id
    }

    /// The description text the track was announced with.
    pub closed spec fn spec_description(&self) -> Seq<char> {
        self.description@
    }

    /// The media identifier the track was announced with.
    pub closed spec fn spec_mid(&self) -> Seq<char> {
        self.mid@
    }

    /// The direction the track was announced with.
    pub closed spec fn spec_direction(&self) -> Direction {
        self.direction
    }

    pub fn new(id: i32, description: String, mid: String, direction: Direction, t_handler: T) -> (r:
        Box<Self>)
        ensures
            r.spec_id() == id,
            r.spec_description() == description@,
            r.spec_mid() == mid@,
            r.spec_direction() == direction,
    {
        Box::new(RtcTrack { id, description, mid, direction, t_handler })
    }

    /// The track's media sections, read out of its description text:
    /// there are some exactly when the text's lines form a track
    /// description.
    pub fn description(&self) -> (r: Option<Vec<webrtc_sdp::media_type::SdpMedia>>)
        ensures
            r is Some <==> sdp::track_media_parses(spec_split_lines(self.spec_description())),
            r is Some ==> forall|k: int|
                0 <= k < spec_split_lines(self.spec_description()).len() ==> sdp::sdp_line_parses(
                    spec_split_lines(self.spec_description())[k],
                ),
    {
        parse_track_description(self.description.as_str())
    }

    pub fn mid(&self) -> (r: String)
        ensures
            r@ == self.spec_mid(),
    {
        self.mid.clone()
    }

    pub fn direction(&self) -> (r: Direction)
        ensures
            r == self.spec_direction(),
    {
        self.direction
    }

    /// How the announced parameters of the track relate across an event:
    /// they do not change.
    pub open spec fn spec_same_announcement(&self, other: &Self) -> bool {
        &&& self.spec_id() == other.spec_id()
        &&& self.spec_description() == other.spec_description()
        &&& self.spec_mid() == other.spec_mid()
        &&& self.spec_direction() == other.spec_direction()
    }

    /// Hands an incoming event to the handler: an error with its message.
    pub fn handle_error(&mut self, err: &str)
        ensures
            final(self).spec_same_announcement(old(self)),
    {
        self.t_handler.on_error(err);
    }

    /// Hands an incoming message to the handler.
    pub fn handle_message(&mut self, msg: &[u8])
        ensures
            final(self).spec_same_announcement(old(self)),
    {
        self.t_handler.on_message(msg);
    }

    /// Hands the track's open event to the handler.
    pub fn handle_open(&mut self)
        ensures
            final(self).spec_same_announcement(old(self)),
    {
        self.t_handler.on_open();
    }

    /// Hands the track's closed event to the handler.
    pub fn handle_closed(&mut self)
        ensures
            final(self).spec_same_announcement(old(self)),
    {
        self.t_handler.on_closed();
    }

    /// Tells the handler that a message is ready to be read.
    pub fn handle_available(&mut self)
        ensures
            final(self).spec_same_announcement(old(self)),
    {
        self.t_handler.on_available();
    }
}

} // verus!
