use tokio::sync::mpsc::UnboundedSender;
use vstd::prelude::*;

verus! {

/// The sending half of tokio's unbounded channel, carried as an opaque value.
#[verifier::external_type_specification]
#[verifier::external_body]
#[verifier::reject_recursive_types(T)]
pub struct ExUnboundedSender<T>(UnboundedSender<T>);

/// All the text frames that the channel has taken in through this handle since the handle
/// was made, oldest first, whether or not the receiving half has read them yet. The rooms
/// keep one handle for each connection and never copy it, so that this is the stream of
/// frames queued for the connection.
pub uninterp spec fn accepted(sink: UnboundedSender<String>) -> Seq<Seq<char>>;

/// Calls `UnboundedSender::send`, which never waits. The channel queues the frame behind
/// all earlier ones and answers `Ok`, unless its receiving half is closed or gone: then it
/// hands the frame back and queues nothing. The answer is given as a flag; which of the
/// two it is depends on the other side and is not for this side to know beforehand. (Only
/// with more messages waiting in one channel than memory can hold would tokio stop the
/// process instead.)
#[verifier::external_body]
pub(crate) fn push_frame(sink: &mut UnboundedSender<String>, frame: String) -> (taken: bool)
    ensures
        taken ==> accepted(*final(sink)) == accepted(*old(sink)).push(frame@),
        !taken ==> accepted(*final(sink)) == accepted(*old(sink)),
{
    sink.send(frame).is_ok()
}

} // verus!
