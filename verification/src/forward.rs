//! The client-to-server direction of a connection.
//!
//! Each round of the pump begins with a look at what the source has buffered,
//! without consuming it. [`on_forward_peek`] says what to do with the chunk.
//! Most chunks pass through as they are. A chunk that opens a TLS 1.2
//! application-data record is set aside: the pump reads the whole record,
//! header included, and [`on_forward_record`] says what to send in its place.

use crate::stamp::CorruptionStamp;
use crate::tls::{header_of, is_complete_record, opens_application_record, peek_header};
use vstd::prelude::*;
use vstd::slice::slice_to_vec;

verus! {

/// The value written over the last byte of a corrupted record.
pub const CORRUPT_BYTE: u8 = 0x12;

/// What the pump does after a look at the source.
#[derive(Debug, PartialEq, Eq)]
pub enum ForwardAction {
    /// The source is closed: the pump ends.
    Stop,
    /// Write `bytes` to the destination in full and flush it, then mark
    /// `consume` bytes of the source as consumed.
    Send { bytes: Vec<u8>, consume: usize },
    /// An application-data record with `content_len` bytes of payload opens
    /// the chunk. Read exactly `size` bytes from the source, write what
    /// [`on_forward_record`] makes of them and flush, then mark `consume`
    /// bytes of the source as consumed.
    ReadRecord { size: usize, content_len: u16, consume: usize },
}

/// The mathematical content of a [`ForwardAction`].
pub ghost enum ForwardPlan {
    Stop,
    Send { bytes: Seq<u8>, consume: nat },
    ReadRecord { size: nat, content_len: u16, consume: nat },
}

impl View for ForwardAction {
    type V = ForwardPlan;

    open spec fn view(&self) -> ForwardPlan {
        match *self {
            ForwardAction::Stop => ForwardPlan::Stop,
            ForwardAction::Send { bytes, consume } => ForwardPlan::Send {
                bytes: bytes@,
                consume: consume as nat,
            },
            ForwardAction::ReadRecord { size, content_len, consume } => ForwardPlan::ReadRecord {
                size: size as nat,
                content_len,
                consume: consume as nat,
            },
        }
    }
}

/// The plan for a chunk that the source shows.
///
/// An empty chunk means that the source is closed. A chunk that opens a
/// TLS 1.2 application-data record calls for the whole record, which is five
/// bytes longer than its payload. Any other chunk, one too short to show a
/// header among them, is sent on byte for byte. In each case the length of
/// the chunk is what the source is told to consume at the end of the round.
pub open spec fn forward_plan(peeked: Seq<u8>) -> ForwardPlan {
    if peeked.len() == 0 {
        ForwardPlan::Stop
    } else if opens_application_record(peeked) {
        ForwardPlan::ReadRecord {
            size: header_of(peeked).record_size(),
            content_len: header_of(peeked).content_len,
            consume: peeked.len(),
        }
    } else {
        ForwardPlan::Send { bytes: peeked, consume: peeked.len() }
    }
}

/// What goes to the destination in place of a record read from the source:
/// the record itself, with its last byte overwritten where padding is to be
/// corrupted.
pub open spec fn forwarded_record(record: Seq<u8>, corrupt_padding: bool) -> Seq<u8> {
    if corrupt_padding && record.len() > 0 {
        record.update(record.len() - 1, CORRUPT_BYTE)
    } else {
        record
    }
}

/// The connection's stamp after a record went through at time `now`.
pub open spec fn stamp_after_record(
    stamp: CorruptionStamp,
    corrupt_padding: bool,
    now: u128,
) -> CorruptionStamp {
    if corrupt_padding {
        stamp.marked(now)
    } else {
        stamp
    }
}

/// Decides what to do with the chunk that the source shows.
pub fn on_forward_peek(peeked: &[u8]) -> (action: ForwardAction)
    ensures
        action@ == forward_plan(peeked@),
{
    let consume: usize = peeked.len();
    if consume == 0 {
        return ForwardAction::Stop;
    }
    match peek_header(peeked) {
        Some(header) => {
            if header.is_application_data() {
                return ForwardAction::ReadRecord {
                    size: header.record_total_size(),
                    content_len: header.content_len,
                    consume,
                };
            }
        },
        None => {},
    }
    ForwardAction::Send { bytes: slice_to_vec(peeked), consume }
}

/// Prepares an application-data record for the destination.
///
/// `record` is what the exact read returned and `now` the clock reading taken
/// after it. Where padding is to be corrupted, the last byte of the record
/// becomes [`CORRUPT_BYTE`] and the stamp takes `now` in place of whatever it
/// held. Otherwise both the record and the stamp stay as they are.
pub fn on_forward_record(
    record: Vec<u8>,
    corrupt_padding: bool,
    now: u128,
    stamp: &mut CorruptionStamp,
) -> (out: Vec<u8>)
    requires
        corrupt_padding ==> record@.len() > 0,
    ensures
        out@ == forwarded_record(record@, corrupt_padding),
        *final(stamp) == stamp_after_record(*old(stamp), corrupt_padding, now),
{
    let mut out: Vec<u8> = record;
    if corrupt_padding {
        let last: usize = out.len() - 1;
        out[last] = CORRUPT_BYTE;
        stamp.mark(now);
    }
    out
}

/// One round of the pump: the chunk that the source showed and, for a round
/// that set the chunk aside, the record that the exact read returned.
pub ghost struct ForwardRound {
    pub peeked: Seq<u8>,
    pub record: Seq<u8>,
}

impl ForwardRound {
    /// What the round takes from the source to send on: the record where the
    /// chunk opens an application-data record, the chunk itself otherwise.
    pub open spec fn taken(self) -> Seq<u8> {
        if opens_application_record(self.peeked) {
            self.record
        } else {
            self.peeked
        }
    }

    /// What the round writes to the destination.
    pub open spec fn written(self, corrupt_padding: bool) -> Seq<u8> {
        match forward_plan(self.peeked) {
            ForwardPlan::Stop => Seq::empty(),
            ForwardPlan::Send { bytes, .. } => bytes,
            ForwardPlan::ReadRecord { .. } => forwarded_record(self.record, corrupt_padding),
        }
    }

    /// Whether the round set its chunk aside and `record` is what an exact
    /// read of the announced size returns while the chunk is unconsumed: it
    /// has that size, and it begins with the bytes of the chunk as far as
    /// both reach.
    pub open spec fn reads_announced_record(self) -> bool {
        &&& opens_application_record(self.peeked)
        &&& self.record.len() == header_of(self.peeked).record_size()
        &&& forall|i: int|
            0 <= i < self.peeked.len() && i < self.record.len() ==> self.record[i]
                == self.peeked[i]
    }
}

/// The chunks that the source showed in `rounds`, laid end to end.
pub open spec fn forward_input(rounds: Seq<ForwardRound>) -> Seq<u8> {
    Seq::new(rounds.len(), |i: int| rounds[i].peeked).flatten()
}

/// What the destination has received after `rounds`.
pub open spec fn forward_output(rounds: Seq<ForwardRound>, corrupt_padding: bool) -> Seq<u8> {
    Seq::new(rounds.len(), |i: int| rounds[i].written(corrupt_padding)).flatten()
}

/// Traffic in which no chunk opens an application-data record reaches the
/// destination byte for byte and in order, whether padding is being
/// corrupted or not: what arrives is the chunks laid end to end.
pub proof fn lemma_forward_passes_other_traffic(rounds: Seq<ForwardRound>, corrupt_padding: bool)
    requires
        forall|i: int|
            0 <= i < rounds.len() ==> !opens_application_record((#[trigger] rounds[i]).peeked),
    ensures
        forward_output(rounds, corrupt_padding) == forward_input(rounds),
        forall|i: int|
            0 <= i < rounds.len() ==> (#[trigger] rounds[i]).written(corrupt_padding)
                == rounds[i].peeked,
{
    assert(Seq::new(rounds.len(), |i: int| rounds[i].written(corrupt_padding)) =~~= Seq::new(
        rounds.len(),
        |i: int| rounds[i].peeked,
    ));
}

/// How the source cuts such traffic into chunks makes no difference to what
/// the destination receives.
pub proof fn lemma_forward_output_ignores_chunking(
    first: Seq<ForwardRound>,
    second: Seq<ForwardRound>,
    corrupt_padding: bool,
)
    requires
        forward_input(first) == forward_input(second),
        forall|i: int|
            0 <= i < first.len() ==> !opens_application_record((#[trigger] first[i]).peeked),
        forall|i: int|
            0 <= i < second.len() ==> !opens_application_record((#[trigger] second[i]).peeked),
    ensures
        forward_output(first, corrupt_padding) == forward_output(second, corrupt_padding),
{
    lemma_forward_passes_other_traffic(first, corrupt_padding);
    lemma_forward_passes_other_traffic(second, corrupt_padding);
}

/// Where padding is not to be corrupted, the destination receives what the
/// rounds took from the source, application-data records included.
pub proof fn lemma_peaceful_forward_changes_nothing(rounds: Seq<ForwardRound>)
    ensures
        forward_output(rounds, false) == Seq::new(
            rounds.len(),
            |i: int| rounds[i].taken(),
        ).flatten(),
        forall|i: int|
            0 <= i < rounds.len() ==> (#[trigger] rounds[i]).written(false) == rounds[i].taken(),
{
    assert(Seq::new(rounds.len(), |i: int| rounds[i].written(false)) =~~= Seq::new(
        rounds.len(),
        |i: int| rounds[i].taken(),
    ));
}

/// A corrupted application-data record differs from the record read in its
/// last byte alone, which is [`CORRUPT_BYTE`]. Its length is that of the
/// record read: five bytes more than the payload that the header announces.
pub proof fn lemma_corruption_changes_last_byte_only(record: Seq<u8>)
    requires
        is_complete_record(record),
        header_of(record).opens_application_data(),
    ensures
        forwarded_record(record, true).len() == record.len(),
        forwarded_record(record, true).len() == 5 + header_of(record).content_len,
        forall|i: int|
            0 <= i < record.len() - 1 ==> forwarded_record(record, true)[i] == record[i],
        forwarded_record(record, true)[record.len() - 1] == CORRUPT_BYTE,
{
}

/// A round that reads the record which its chunk announces holds one whole
/// application-data record. With padding corrupted, what it writes is that
/// record with [`CORRUPT_BYTE`] as its last byte, at the length that the
/// header announces; without, it is the record.
pub proof fn lemma_round_forwards_announced_record(round: ForwardRound)
    requires
        round.reads_announced_record(),
    ensures
        header_of(round.record) == header_of(round.peeked),
        is_complete_record(round.record),
        round.written(true) == round.record.update(round.record.len() - 1, CORRUPT_BYTE),
        round.written(true).len() == 5 + header_of(round.peeked).content_len,
        round.written(false) == round.record,
{
}

/// Where padding is not to be corrupted, an application-data record goes on
/// as it was read, and the stamp keeps what it held.
pub proof fn lemma_peaceful_record_is_unchanged(
    record: Seq<u8>,
    stamp: CorruptionStamp,
    now: u128,
)
    ensures
        forwarded_record(record, false) == record,
        stamp_after_record(stamp, false, now) == stamp,
{
}

} // verus!
