//! The trusted boundary to `futures`' unbounded channels.
//!
//! A sink is the sending half of an unbounded mpsc channel; a session's
//! receiving half is drained by the surrounding program and written to that
//! session's connection.  Everything the library assumes about the outside
//! crate stands here.

use futures::channel::mpsc::UnboundedSender;
use vstd::prelude::*;

verus! {

#[verifier::external_type_specification]
#[verifier::external_body]
#[verifier::reject_recursive_types(T)]
pub struct ExUnboundedSender<T>(UnboundedSender<T>);

/// Relies on `Clone for futures::channel::mpsc::UnboundedSender`: a clone is
/// another handle to the very same queue, so the library treats the two
/// handles as one sink value.
pub assume_specification<T>[ <UnboundedSender<T> as Clone>::clone ](
    s: &UnboundedSender<T>,
) -> (r: UnboundedSender<T>)
    ensures
        r == *s,
;

/// Relies on `UnboundedSender::unbounded_send`: enqueues `msg` on the queue
/// behind `sink` without blocking.  The result is discarded, as sending to a
/// session that has already closed its receiver is a silent no-op here;
/// nothing is promised about the outcome.
#[verifier::external_body]
pub(crate) fn sink_send(sink: &UnboundedSender<String>, msg: String) {
    let _ = sink.unbounded_send(msg);
}

} // verus!
