//! Decoding of the datagrams that the GUI sends to the server.

use vstd::prelude::*;

use crate::protocol::common;
use crate::protocol::gui_to_server::{
    GuiToServerLabel, GuiToServerMsg, Header, LoadGamePld, NewGamePld, Packet, SaveGamePld,
    SetSpeedPld, HEADER_SIZE, PACKET_SIZE, STR_LEN,
};

verus! {

/// Maximum number of packets processed in one batch.
pub const MAX_PACKETS: u8 = 10;

/// Byte `i` of the payload of a received datagram. Datagrams are read into a
/// zeroed buffer of `PACKET_SIZE` bytes, so bytes past the end of the
/// datagram read as 0 and bytes past the buffer are cut off.
pub open spec fn payload_byte(bytes: Seq<u8>, i: int) -> u8 {
    if HEADER_SIZE + i < bytes.len() && HEADER_SIZE + i < PACKET_SIZE {
        bytes[HEADER_SIZE + i]
    } else {
        0
    }
}

/// The name field carried by a datagram.
pub open spec fn name_field(bytes: Seq<u8>) -> Seq<u8> {
    Seq::new(STR_LEN as nat, |i: int| payload_byte(bytes, i))
}

/// True if the datagram holds a whole header.
pub open spec fn has_header(bytes: Seq<u8>) -> bool {
    bytes.len() >= HEADER_SIZE
}

/// True if the datagram decodes to a message: a known label, and for a speed
/// change a known speed byte.
pub open spec fn decodable(bytes: Seq<u8>) -> bool {
    &&& has_header(bytes)
    &&& 1 <= bytes[0] <= 4
    &&& bytes[0] == 4 ==> payload_byte(bytes, 0) <= 5
}

/// True if `msg` is the message that the datagram carries.
pub open spec fn decodes_to(bytes: Seq<u8>, msg: GuiToServerMsg) -> bool {
    has_header(bytes) && match msg {
        GuiToServerMsg::NewGame(p) => bytes[0] == 1 && p.civ_name@ == name_field(bytes),
        GuiToServerMsg::SaveGame(p) => bytes[0] == 2 && p.name@ == name_field(bytes),
        GuiToServerMsg::LoadGame(p) => bytes[0] == 3 && p.name@ == name_field(bytes),
        GuiToServerMsg::SetSpeed(p) => bytes[0] == 4 && p.speed.wire_byte() == payload_byte(
            bytes,
            0,
        ),
    }
}

/// Read the name field of a datagram.
fn read_name(bytes: &[u8]) -> (res: [u8; STR_LEN])
    ensures
        res@ == name_field(bytes@),
{
    let mut out: [u8; STR_LEN] = [0u8; 32];
    let mut i: usize = 0;
    while i < STR_LEN
        invariant
            i <= STR_LEN,
            out@.len() == STR_LEN,
            forall|j: int| 0 <= j < i ==> out@[j] == payload_byte(bytes@, j),
            forall|j: int| i <= j < STR_LEN ==> out@[j] == 0,
        decreases STR_LEN - i,
    {
        if HEADER_SIZE + i < bytes.len() && HEADER_SIZE + i < PACKET_SIZE {
            out[i] = bytes[HEADER_SIZE + i];
        }
        i = i + 1;
    }
    assert(out@ =~= name_field(bytes@));
    out
}

/// Decode the header of a datagram; `None` for a datagram too short to hold
/// one or with an unknown label.
pub fn decode_header(bytes: &[u8]) -> (res: Option<Header>)
    ensures
        res is Some <==> has_header(bytes@) && 1 <= bytes@[0] <= 4,
        res matches Some(h) ==> h.label.wire_byte() == bytes@[0],
{
    if bytes.len() < HEADER_SIZE {
        return None;
    }
    match GuiToServerLabel::from_byte(bytes[0]) {
        Some(label) => Some(Header { label }),
        None => None,
    }
}

/// Decode one datagram received from the GUI into a message.
///
/// Returns `None` for a datagram too short to hold a header, with an unknown
/// label, or with an unknown speed byte.
pub fn decode_packet(bytes: &[u8]) -> (res: Option<GuiToServerMsg>)
    ensures
        res is Some <==> decodable(bytes@),
        res matches Some(m) ==> decodes_to(bytes@, m),
{
    let header = match decode_header(bytes) {
        Some(h) => h,
        None => return None,
    };
    match header.label {
        GuiToServerLabel::NewGame => {
            let packet = Packet { header, payload: NewGamePld { civ_name: read_name(bytes) } };
            Some(GuiToServerMsg::NewGame(packet.payload))
        },
        GuiToServerLabel::SaveGame => {
            let packet = Packet { header, payload: SaveGamePld { name: read_name(bytes) } };
            Some(GuiToServerMsg::SaveGame(packet.payload))
        },
        GuiToServerLabel::LoadGame => {
            let packet = Packet { header, payload: LoadGamePld { name: read_name(bytes) } };
            Some(GuiToServerMsg::LoadGame(packet.payload))
        },
        GuiToServerLabel::SetSpeed => {
            let speed_byte: u8 = if HEADER_SIZE < bytes.len() {
                bytes[HEADER_SIZE]
            } else {
                0
            };
            match common::GameSpeed::from_byte(speed_byte) {
                Some(speed) => {
                    let packet = Packet { header, payload: SetSpeedPld { speed } };
                    Some(GuiToServerMsg::SetSpeed(packet.payload))
                },
                None => None,
            }
        },
    }
}

/// Commands collected from the datagrams of one batch.
pub struct CommandBatch {
    /// Decoded messages, in the order in which their datagrams arrived.
    pub commands: Vec<GuiToServerMsg>,
    /// Number of datagrams with a header taken in so far.
    pub processed: u8,
}

impl CommandBatch {
    /// At most `MAX_PACKETS` datagrams are counted, and each yields at most
    /// one command.
    pub open spec fn wf(&self) -> bool {
        &&& self.processed <= MAX_PACKETS
        &&& self.commands@.len() <= self.processed
    }

    /// An empty batch.
    pub fn new() -> (res: Self)
        ensures
            res.wf(),
            res.processed == 0,
            res.commands@.len() == 0,
    {
        CommandBatch { commands: Vec::new(), processed: 0 }
    }

    /// True once `MAX_PACKETS` datagrams have been counted; no further
    /// datagram is read then.
    pub fn is_complete(&self) -> (res: bool)
        ensures
            res == (self.processed >= MAX_PACKETS),
    {
        self.processed >= MAX_PACKETS
    }

    /// Take in one received datagram. A datagram too short for a header is
    /// skipped and not counted; any other is counted, and adds its message
    /// when it decodes to one.
    pub fn accept_datagram(&mut self, bytes: &[u8])
        requires
            old(self).wf(),
            old(self).processed < MAX_PACKETS,
        ensures
            final(self).wf(),
            !has_header(bytes@) ==> final(self).processed == old(self).processed
                && final(self).commands@ == old(self).commands@,
            has_header(bytes@) ==> final(self).processed == old(self).processed + 1,
            has_header(bytes@) && !decodable(bytes@) ==> final(self).commands@ == old(
                self,
            ).commands@,
            decodable(bytes@) ==> final(self).commands@.len() == old(self).commands@.len() + 1
                && final(self).commands@.drop_last() == old(self).commands@
                && decodes_to(bytes@, final(self).commands@.last()),
    {
        if bytes.len() < HEADER_SIZE {
            return ;
        }
        match decode_packet(bytes) {
            Some(msg) => self.commands.push(msg),
            None => {},
        }
        self.processed = self.processed + 1;
    }
}

} // verus!
