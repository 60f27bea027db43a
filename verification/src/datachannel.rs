use vstd::prelude::*;
use vstd::utf8::{decode_utf8, valid_utf8};

use crate::error::Error;
use crate::{ffi_string, nul_free, spec_nul_terminated};

verus! {

/// Reliability settings of a data channel, as the native transport
/// understands them: ordered/unordered delivery, reliable/unreliable
/// delivery, and the two bounds that only apply to unreliable channels.
#[derive(Debug)]
pub struct Reliability {
    pub unordered: bool,
    pub unreliable: bool,
    pub max_packet_life_time: u32,
    pub max_retransmits: u32,
}

impl Reliability {
    pub fn unordered(self) -> (r: Self)
        ensures
            r == (Reliability { unordered: true, ..self }),
    {
        let mut s = self;
        s.unordered = true;
        s
    }

    pub fn unreliable(self) -> (r: Self)
        ensures
            r == (Reliability { unreliable: true, ..self }),
    {
        let mut s = self;
        s.unreliable = true;
        s
    }

    pub fn max_packet_life_time(self, max_packet_life_time: u32) -> (r: Self)
        ensures
            r == (Reliability { max_packet_life_time, ..self }),
    {
        let mut s = self;
        s.max_packet_life_time = max_packet_life_time;
        s
    }

    pub fn max_retransmits(self, max_retransmits: u32) -> (r: Self)
        ensures
            r == (Reliability { max_retransmits, ..self }),
    {
        let mut s = self;
        s.max_retransmits = max_retransmits;
        s
    }
}

impl Clone for Reliability {
    fn clone(&self) -> (r: Self)
        ensures
            r == *self,
    {
        Reliability {
            unordered: self.unordered,
            unreliable: self.unreliable,
            max_packet_life_time: self.max_packet_life_time,
            max_retransmits: self.max_retransmits,
        }
    }
}

impl Default for Reliability {
    /// An ordered, reliable channel with both bounds at zero.
    fn default() -> (r: Self)
        ensures
            r == (Reliability {
                unordered: false,
                unreliable: false,
                max_packet_life_time: 0u32,
                max_retransmits: 0u32,
            }),
    {
        Reliability {
            unordered: false,
            unreliable: false,
            max_packet_life_time: 0,
            max_retransmits: 0,
        }
    }
}

/// The options a data channel is created with.  The protocol name crosses
/// the native boundary as a C string, so it must stay free of nul
/// characters.
#[derive(Debug)]
pub struct DataChannelInit {
    pub reliability: Reliability,
    pub protocol: String,
    pub negotiated: bool,
    pub manual_stream: bool,
    pub stream: u16,
}

impl DataChannelInit {
    pub fn reliability(self, reliability: Reliability) -> (r: Self)
        ensures
            r == (DataChannelInit { reliability, ..self }),
    {
        let mut s = self;
        s.reliability = reliability;
        s
    }

    pub fn protocol(self, protocol: &str) -> (r: Self)
        requires
            nul_free(protocol@),
        ensures
            r.protocol@ == protocol@,
            r.reliability == self.reliability,
            r.negotiated == self.negotiated,
            r.manual_stream == self.manual_stream,
            r.stream == self.stream,
    {
        let mut s = self;
        s.protocol = protocol.to_owned();
        s
    }

    pub fn negotiated(self) -> (r: Self)
        ensures
            r == (DataChannelInit { negotiated: true, ..self }),
    {
        let mut s = self;
        s.negotiated = true;
        s
    }

    pub fn manual_stream(self) -> (r: Self)
        ensures
            r == (DataChannelInit { manual_stream: true, ..self }),
    {
        let mut s = self;
        s.manual_stream = true;
        s
    }

    /// numeric ID 0-65534, ignored if `manual_stream` is false
    pub fn stream(self, stream: u16) -> (r: Self)
        ensures
            r == (DataChannelInit { stream, ..self }),
    {
        let mut s = self;
        s.stream = stream;
        s
    }
}

impl Default for DataChannelInit {
    fn default() -> (r: Self)
        ensures
            r.reliability == (Reliability {
                unordered: false,
                unreliable: false,
                max_packet_life_time: 0u32,
                max_retransmits: 0u32,
            }),
            r.protocol@ == Seq::<char>::empty(),
            !r.negotiated,
            !r.manual_stream,
            r.stream == 0u16,
    {
        DataChannelInit {
            reliability: Reliability::default(),
            protocol: String::new(),
            negotiated: false,
            manual_stream: false,
            stream: 0,
        }
    }
}

/// The handle under which the native library knows a data channel.
#[derive(Debug, Clone, Copy, PartialEq, Eq, Structural, PartialOrd, Hash)]
pub struct DataChannelId(pub i32);

/// The callbacks a data channel reports its events through.  Implementors
/// override the events they care about; the rest are ignored.
#[allow(unused_variables)]
pub trait DataChannelHandler {
    fn on_open(&mut self) {
    }

    fn on_closed(&mut self) {
    }

    fn on_error(&mut self, err: &str) {
    }

    fn on_message(&mut self, msg: &[u8]) {
    }

    fn on_buffered_amount_low(&mut self) {
    }

    fn on_available(&mut self) {
    }
}

/// What is known of a data channel when it is announced: its handle and
/// the negotiated parameters read back from the native side.
#[derive(Debug)]
pub struct DataChannelInfo {
    pub id: DataChannelId,
    pub label: String,
    pub protocol: Option<String>,
    pub reliability: Reliability,
    pub stream: usize,
}

/// The amount a native amount query reports: the query's non-negative
/// return code is the amount itself, and a failed query counts as nothing.
pub fn amount_from_code(code: i32) -> (r: usize)
    ensures
        code >= 0 ==> r == code as usize,
        code < 0 ==> r == 0,
{
    if code >= 0 {
        code as usize
    } else {
        0
    }
}

/// The native buffered-amount threshold takes the amount as an `i32`: an
/// amount beyond that range cannot be asked for.
pub fn buffered_amount_low_threshold_code(amount: usize) -> (r: Result<i32, Error>)
    ensures
        amount <= 0x7fff_ffff ==> r == Result::<i32, Error>::Ok(amount as i32),
        amount > 0x7fff_ffff ==> r == Result::<i32, Error>::Err(Error::InvalidArg),
{
    if amount <= 0x7fff_ffff {
        Ok(amount as i32)
    } else {
        Err(Error::InvalidArg)
    }
}

/// The label a native label query reports: the C string the query wrote
/// into the buffer, when the query succeeded and the buffer reads back as
/// one; an empty label otherwise.
pub fn label_from_buffer(code: i32, buf: &[u8]) -> (r: String)
    ensures
        code >= 0 && spec_nul_terminated(buf@) && valid_utf8(buf@.drop_last()) ==> r@
            == decode_utf8(buf@.drop_last()),
        !(code >= 0 && spec_nul_terminated(buf@) && valid_utf8(buf@.drop_last())) ==> r@
            == Seq::<char>::empty(),
{
    if code < 0 {
        return String::new();
    }
    match ffi_string(buf) {
        Ok(label) => label,
        Err(_) => String::new(),
    }
}

/// The protocol a native protocol query reports.  A return code of one
/// means the query wrote only the nul terminator: the channel has no
/// protocol.  Otherwise the buffer's C string is the protocol, and a
/// query or buffer failure counts as none.
pub fn protocol_from_buffer(code: i32, buf: &[u8]) -> (r: Option<String>)
    ensures
        code < 0 || code == 1 ==> r is None,
        code >= 0 && code != 1 ==> {
            &&& (r is Some <==> spec_nul_terminated(buf@) && valid_utf8(buf@.drop_last()))
            &&& (r is Some ==> r->Some_0@ == decode_utf8(buf@.drop_last()))
        },
{
    if code < 0 || code == 1 {
        return None;
    }
    match ffi_string(buf) {
        Ok(protocol) => Some(protocol),
        Err(_) => None,
    }
}

impl Clone for DataChannelInfo {
    fn clone(&self) -> (r: Self)
        ensures
            r.id == self.id,
            r.label@ == self.label@,
            match r.protocol {
                Some(p) => self.protocol is Some && p@ == self.protocol->Some_0@,
                None => self.protocol is None,
            },
            r.reliability == self.reliability,
            r.stream == self.stream,
    {
        DataChannelInfo {
            id: self.id,
            label: self.label.clone(),
            protocol: match &self.protocol {
                Some(p) => Some(p.clone()),
                None => None,
            },
            reliability: self.reliability.clone(),
            stream: self.stream,
        }
    }
}

/// A data channel: the negotiated parameters it was announced with,
/// paired with the handler that receives its events.
pub struct RtcDataChannel<D> {
    info: DataChannelInfo,
    dc_handler: D,
}

impl<D> RtcDataChannel<D> where D: DataChannelHandler {
    /// The parameters this channel was created with.
    pub closed spec fn spec_info(&self) -> DataChannelInfo {
        self.info
    }

    pub fn new(info: DataChannelInfo, dc_handler: D) -> (r: Box<Self>)
        ensures
            r.spec_info() == info,
    {
        Box::new(RtcDataChannel { info, dc_handler })
    }

    pub fn id(&self) -> (r: DataChannelId)
        ensures
            r == self.spec_info().id,
    {
        self.info.id
    }

    pub fn label(&self) -> (r: String)
        ensures
            r@ == self.spec_info().label@,
    {
        self.info.label.clone()
    }

    pub fn protocol(&self) -> (r: Option<String>)
        ensures
            match r {
                Some(p) => self.spec_info().protocol is Some
                    && p@ == self.spec_info().protocol->Some_0@,
                None => self.spec_info().protocol is None,
            },
    {
        match &self.info.protocol {
            Some(p) => Some(p.clone()),
            None => None,
        }
    }

    pub fn reliability(&self) -> (r: Reliability)
        ensures
            r == self.spec_info().reliability,
    {
        self.info.reliability.clone()
    }

    pub fn stream(&self) -> (r: usize)
        ensures
            r == self.spec_info().stream,
    {
        self.info.stream
    }

    /// Hands an incoming event to the handler: an error with its message.
    pub fn handle_error(&mut self, err: &str)
        ensures
            final(self).spec_info() == old(self).spec_info(),
    {
        self.dc_handler.on_error(err);
    }

    /// Hands an incoming message to the handler.
    pub fn handle_message(&mut self, msg: &[u8])
        ensures
            final(self).spec_info() == old(self).spec_info(),
    {
        self.dc_handler.on_message(msg);
    }

    /// Hands the channel's open event to the handler.
    pub fn handle_open(&mut self)
        ensures
            final(self).spec_info() == old(self).spec_info(),
    {
        self.dc_handler.on_open();
    }

    /// Hands the channel's closed event to the handler.
    pub fn handle_closed(&mut self)
        ensures
            final(self).spec_info() == old(self).spec_info(),
    {
        self.dc_handler.on_closed();
    }

    /// Tells the handler that the buffered amount fell to or below the
    /// configured threshold.
    pub fn handle_buffered_amount_low(&mut self)
        ensures
            final(self).spec_info() == old(self).spec_info(),
    {
        self.dc_handler.on_buffered_amount_low();
    }

    /// Tells the handler that a message is ready to be read.
    pub fn handle_available(&mut self)
        ensures
            final(self).spec_info() == old(self).spec_info(),
    {
        self.dc_handler.on_available();
    }
}

} // verus!
