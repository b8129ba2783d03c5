//! The stop-signal channel: an unbounded `flume` channel of unit messages.
//!
//! Nothing in this file is proved. Each item states what the channel crate's
//! source shows of one of its functions, and the guard is verified against
//! these statements.

use vstd::prelude::*;

verus! {

/// `flume::Sender`, the sending end of a channel. Opaque to the verifier.
#[verifier::external_type_specification]
#[verifier::external_body]
#[verifier::reject_recursive_types(T)]
pub struct ExSender<T>(flume::Sender<T>);

/// `flume::Receiver`, the receiving end of a channel. Opaque to the verifier.
#[verifier::external_type_specification]
#[verifier::external_body]
#[verifier::reject_recursive_types(T)]
pub struct ExReceiver<T>(flume::Receiver<T>);

/// Whether the channel behind `tx` has no capacity limit, which is when
/// `flume::Sender::capacity` returns `None`. A channel keeps the limit it
/// was created with for as long as it exists.
pub uninterp spec fn never_full(tx: flume::Sender<()>) -> bool;

/// Whether a sending end and a receiving end belong to one channel, as the
/// two ends that `flume::unbounded` returns together do.
pub uninterp spec fn one_channel(tx: flume::Sender<()>, rx: flume::Receiver<()>) -> bool;

/// Whether two receiving ends belong to one channel, which is what
/// `flume::Receiver::same_channel` returns for them.
pub uninterp spec fn same_channel(one: flume::Receiver<()>, other: flume::Receiver<()>) -> bool;

/// The number of messages that the channel has taken from this sending
/// end. A message that was taken is in the channel's queue or with a
/// receiver; this counts what went in, not what is still there.
pub uninterp spec fn handed_over(tx: flume::Sender<()>) -> nat;

/// `flume::unbounded`: creates a channel and returns its two ends. The
/// channel has no capacity limit, the two ends belong together, and
/// nothing has been sent yet.
#[verifier::external_body]
pub(crate) fn open_stop_channel() -> (ends: (flume::Sender<()>, flume::Receiver<()>))
    ensures
        never_full(ends.0),
        one_channel(ends.0, ends.1),
        handed_over(ends.0) == 0,
{
    flume::unbounded()
}

/// `flume::Sender::send` of one unit message, on a channel without a
/// capacity limit and with a receiving end of the same channel in the
/// caller's hands.
///
/// On such a channel the call does not block. It fails only once every
/// receiving end has been dropped, which `kept` rules out for the length of
/// the call; so the message is taken: it is in the queue, or in the slot of
/// a receiver that was waiting, before the call returns. The sending end
/// stays what it was but for the count. The call does not unwind: the one
/// panic in its path is that of a poisoned lock inside the channel, which
/// only a panic of the channel's own code can cause.
#[verifier::external_body]
#[allow(unused_variables)]
pub(crate) fn send_stop_signal(
    tx: &mut flume::Sender<()>,
    kept: &flume::Receiver<()>,
) -> (taken: bool)
    requires
        never_full(*old(tx)),
        one_channel(*old(tx), *kept),
    ensures
        never_full(*final(tx)),
        one_channel(*final(tx), *kept),
        taken,
        handed_over(*final(tx)) == handed_over(*old(tx)) + 1,
    no_unwind
{
    tx.send(()).is_ok()
}

/// `Clone::clone` of `flume::Receiver`: another receiving end of the same
/// channel. Each message still goes to one receiver only.
#[verifier::external_body]
pub(crate) fn share_receiver(rx: &flume::Receiver<()>) -> (handle: flume::Receiver<()>)
    ensures
        same_channel(*rx, handle),
{
    rx.clone()
}

} // verus!
