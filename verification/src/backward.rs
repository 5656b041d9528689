//! The server-to-client direction of a connection.
//!
//! This direction never changes a byte. It watches for alert records and,
//! when one opens a chunk, measures it against the connection's stamp.

use crate::forward::stamp_after_record;
use crate::stamp::{AlertReport, CorruptionStamp};
use crate::tls::{opens_alert_record, peek_header};
use vstd::prelude::*;
use vstd::slice::slice_to_vec;

verus! {

/// What the pump does after a look at the source.
#[derive(Debug, PartialEq, Eq)]
pub enum BackwardAction {
    /// The source is closed: the pump ends.
    Stop,
    /// Write `bytes` to the destination in full and flush it, then mark
    /// `consume` bytes of the source as consumed. Where the chunk opens an
    /// alert that the relay watches for, `alert` holds the measurement to
    /// report.
    Send { bytes: Vec<u8>, consume: usize, alert: Option<AlertReport> },
}

/// The mathematical content of a [`BackwardAction`].
pub ghost enum BackwardPlan {
    Stop,
    Send { bytes: Seq<u8>, consume: nat, alert: Option<AlertReport> },
}

impl View for BackwardAction {
    type V = BackwardPlan;

    open spec fn view(&self) -> BackwardPlan {
        match *self {
            BackwardAction::Stop => BackwardPlan::Stop,
            BackwardAction::Send { bytes, consume, alert } => BackwardPlan::Send {
                bytes: bytes@,
                consume: consume as nat,
                alert,
            },
        }
    }
}

impl BackwardPlan {
    /// The bytes that go to the destination.
    pub open spec fn written(self) -> Seq<u8> {
        match self {
            BackwardPlan::Send { bytes, .. } => bytes,
            BackwardPlan::Stop => Seq::empty(),
        }
    }
}

/// The measurement that a chunk gives rise to: one for a chunk that opens a
/// TLS 1.2 alert record while padding is being corrupted, none otherwise.
pub open spec fn alert_seen(
    peeked: Seq<u8>,
    corrupt_padding: bool,
    stamp: CorruptionStamp,
    now: u128,
) -> Option<AlertReport> {
    if corrupt_padding && opens_alert_record(peeked) {
        Some(stamp.report(now))
    } else {
        None
    }
}

/// The plan for a chunk that the source shows at time `now`.
///
/// An empty chunk means that the source is closed. Every other chunk is sent
/// on byte for byte and consumed whole, an alert like anything else.
pub open spec fn backward_plan(
    peeked: Seq<u8>,
    corrupt_padding: bool,
    stamp: CorruptionStamp,
    now: u128,
) -> BackwardPlan {
    if peeked.len() == 0 {
        BackwardPlan::Stop
    } else {
        BackwardPlan::Send {
            bytes: peeked,
            consume: peeked.len(),
            alert: alert_seen(peeked, corrupt_padding, stamp, now),
        }
    }
}

/// Decides what to do with the chunk that the source shows.
///
/// `stamp` is the connection's stamp as it stands and `now` the clock reading
/// at the look. Neither matters unless padding is being corrupted and the
/// chunk opens an alert.
pub fn on_backward_peek(
    peeked: &[u8],
    corrupt_padding: bool,
    stamp: &CorruptionStamp,
    now: u128,
) -> (action: BackwardAction)
    ensures
        action@ == backward_plan(peeked@, corrupt_padding, *stamp, now),
{
    let consume: usize = peeked.len();
    if consume == 0 {
        return BackwardAction::Stop;
    }
    let mut alert: Option<AlertReport> = None;
    if corrupt_padding {
        match peek_header(peeked) {
            Some(header) => {
                if header.is_alert() {
                    alert = Some(stamp.on_alert(now));
                }
            },
            None => {},
        }
    }
    BackwardAction::Send { bytes: slice_to_vec(peeked), consume, alert }
}

/// One round of the pump: the chunk that the source showed, the connection's
/// stamp as it stood, and the clock reading at the look.
pub ghost struct BackwardRound {
    pub peeked: Seq<u8>,
    pub stamp: CorruptionStamp,
    pub now: u128,
}

impl BackwardRound {
    /// What the round writes to the destination.
    pub open spec fn written(self, corrupt_padding: bool) -> Seq<u8> {
        backward_plan(self.peeked, corrupt_padding, self.stamp, self.now).written()
    }
}

/// The chunks that the source showed in `rounds`, laid end to end.
pub open spec fn backward_input(rounds: Seq<BackwardRound>) -> Seq<u8> {
    Seq::new(rounds.len(), |i: int| rounds[i].peeked).flatten()
}

/// What the destination has received after `rounds`.
pub open spec fn backward_output(rounds: Seq<BackwardRound>, corrupt_padding: bool) -> Seq<u8> {
    Seq::new(rounds.len(), |i: int| rounds[i].written(corrupt_padding)).flatten()
}

/// All traffic reaches the destination byte for byte and in order, alerts
/// included and whatever the stamp holds: what arrives is the chunks laid end
/// to end, so that the cut into chunks makes no difference.
pub proof fn lemma_backward_passes_all_traffic(rounds: Seq<BackwardRound>, corrupt_padding: bool)
    ensures
        backward_output(rounds, corrupt_padding) == backward_input(rounds),
        forall|i: int|
            0 <= i < rounds.len() ==> (#[trigger] rounds[i]).written(corrupt_padding)
                == rounds[i].peeked,
{
    assert(Seq::new(rounds.len(), |i: int| rounds[i].written(corrupt_padding)) =~~= Seq::new(
        rounds.len(),
        |i: int| rounds[i].peeked,
    ));
}

/// An alert that the server sends after a record of the same connection was
/// corrupted is reported with the time between the two clock readings,
/// whatever the stamp held before the corruption. The alert itself goes on to
/// the client as it came.
pub proof fn lemma_alert_after_corruption_is_timed(
    before: CorruptionStamp,
    corrupted_at: u128,
    alert: Seq<u8>,
    alert_at: u128,
)
    requires
        opens_alert_record(alert),
        corrupted_at <= alert_at,
    ensures
        backward_plan(alert, true, stamp_after_record(before, true, corrupted_at), alert_at) == (
        BackwardPlan::Send {
            bytes: alert,
            consume: alert.len(),
            alert: Some(AlertReport::Elapsed { nanos: (alert_at - corrupted_at) as u128 }),
        }),
        alert_at - corrupted_at >= 0,
{
}

/// An alert on a connection whose stamp is empty is reported as unrelated to
/// any corruption.
pub proof fn lemma_alert_without_corruption(alert: Seq<u8>, stamp: CorruptionStamp, alert_at: u128)
    requires
        opens_alert_record(alert),
        stamp.sent_at is None,
    ensures
        alert_seen(alert, true, stamp, alert_at) == Some(AlertReport::NoCorruption),
{
}

} // verus!
