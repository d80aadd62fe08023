//! Admission of a freshly accepted connection: the decision the broker
//! takes on a connection's first frame, as one verified step over the
//! registry.
//!
//! The caller reads the handshake line off the socket, hands it in, and
//! performs the returned route: write the error frame and close, close
//! silently, or run the publisher or subscriber loop on the resolved topic.

use crate::protocol::{classify_handshake, spec_classify_handshake, HandshakeClass,
    HandshakeOutcome};
use crate::registry::{spec_reg_resolve, spec_reg_subscribe, Registry};
use vstd::prelude::*;

verus! {

/// What to do with a connection after its handshake frame.
pub enum Route {
    /// Run publisher ingestion on the topic at this position.
    Publisher { topic_idx: usize },
    /// Run subscriber fan-out on the topic at this position, reading on
    /// this cursor.
    Subscriber { topic_idx: usize, cursor: usize },
    /// Write the error frame, then close the connection.
    Reject,
    /// Close the connection silently, with no error frame.
    Ignore,
}

/// Decide a connection's fate from its handshake line (without its trailing
/// newline). A frame that is not JSON or lacks `method` or `topic` is
/// rejected and leaves the registry untouched, as does an unrecognized
/// method. A publish or subscribe handshake resolves its topic — creating
/// it on first reference — and a subscribe additionally attaches a fresh
/// cursor, which will observe exactly the frames published after this call.
pub fn admit_connection(reg: &mut Registry, line: &Vec<u8>) -> (r: Route)
    requires
        old(reg)@.wf(),
    ensures
        final(reg)@.wf(),
        spec_classify_handshake(line@) is Reject ==> r == Route::Reject && final(reg)@ == old(
            reg,
        )@,
        spec_classify_handshake(line@) is Ignore ==> r == Route::Ignore && final(reg)@ == old(
            reg,
        )@,
        spec_classify_handshake(line@) matches HandshakeClass::Publish { topic } ==> (r matches
            Route::Publisher { topic_idx } && (final(reg)@, topic_idx as int) == spec_reg_resolve(
            old(reg)@,
            topic,
        )),
        spec_classify_handshake(line@) matches HandshakeClass::Subscribe { topic } ==> (r matches
            Route::Subscriber { topic_idx, cursor } && topic_idx as int == spec_reg_resolve(
            old(reg)@,
            topic,
        ).1 && final(reg)@ == spec_reg_subscribe(
            spec_reg_resolve(old(reg)@, topic).0,
            topic_idx as int,
        ) && cursor == spec_reg_resolve(old(reg)@, topic).0.channels[topic_idx as int].cursors.len()),
{
    match classify_handshake(line) {
        HandshakeOutcome::Reject => Route::Reject,
        HandshakeOutcome::Ignore => Route::Ignore,
        HandshakeOutcome::Publish { topic } => {
            let topic_idx = reg.resolve(&topic);
            Route::Publisher { topic_idx }
        },
        HandshakeOutcome::Subscribe { topic } => {
            let topic_idx = reg.resolve(&topic);
            let cursor = reg.subscribe_to(topic_idx);
            Route::Subscriber { topic_idx, cursor }
        },
    }
}

} // verus!
