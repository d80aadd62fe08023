//! The topic registry: one authoritative mapping from topic name to its
//! fan-out channel, with get-or-create resolution.
//!
//! Topic names are compared verbatim — case-sensitive, no normalization —
//! and a topic, once created, lives for the life of the registry. Callers
//! hold a resolved topic as an index into the registry; indices are stable
//! because topics are only ever appended.

use crate::channel::{spec_publish, spec_recv_class, spec_recv_next, spec_subscribe};
use crate::channel::{Channel, ChannelModel, RecvOutcome};
use vstd::prelude::*;

verus! {

/// The mathematical state of the registry: the topic names and, at the same
/// position, each topic's channel.
#[verifier::ext_equal]
pub struct RegistryModel {
    pub names: Seq<Seq<char>>,
    pub channels: Seq<ChannelModel>,
}

impl RegistryModel {
    pub open spec fn empty() -> RegistryModel {
        RegistryModel { names: Seq::empty(), channels: Seq::empty() }
    }

    /// Well-formedness: one channel per name, no name twice, every channel
    /// well-formed.
    pub open spec fn wf(self) -> bool {
        &&& self.names.len() == self.channels.len()
        &&& forall|i: int, j: int|
            0 <= i < self.names.len() && 0 <= j < self.names.len() && i != j
                ==> #[trigger] self.names[i] != #[trigger] self.names[j]
        &&& forall|i: int| 0 <= i < self.channels.len() ==> (#[trigger] self.channels[i]).wf()
    }

    pub open spec fn has_topic(self, name: Seq<char>) -> bool {
        exists|i: int| 0 <= i < self.names.len() && self.names[i] == name
    }

    /// The position of a topic's channel; meaningful only when the topic
    /// exists, and then unique by well-formedness.
    pub open spec fn index_of(self, name: Seq<char>) -> int {
        choose|i: int| 0 <= i < self.names.len() && self.names[i] == name
    }
}

/// Get-or-create resolution: an existing topic keeps the registry as it is
/// and yields its position; a new name is appended with a fresh empty
/// channel. The pair is the registry afterwards and the topic's position.
pub open spec fn spec_reg_resolve(r: RegistryModel, name: Seq<char>) -> (RegistryModel, int) {
    if r.has_topic(name) {
        (r, r.index_of(name))
    } else {
        (
            RegistryModel {
                names: r.names.push(name),
                channels: r.channels.push(ChannelModel::empty()),
            },
            r.names.len() as int,
        )
    }
}

/// Publishing through one topic's index rewrites that channel alone.
pub open spec fn spec_reg_publish(r: RegistryModel, idx: int, frame: Seq<u8>) -> RegistryModel {
    RegistryModel { channels: r.channels.update(idx, spec_publish(r.channels[idx], frame)), ..r }
}

/// Attaching a subscriber through one topic's index rewrites that channel
/// alone.
pub open spec fn spec_reg_subscribe(r: RegistryModel, idx: int) -> RegistryModel {
    RegistryModel { channels: r.channels.update(idx, spec_subscribe(r.channels[idx])), ..r }
}

/// Reading through one topic's index rewrites that channel alone.
pub open spec fn spec_reg_recv(r: RegistryModel, idx: int, sub: int) -> RegistryModel {
    RegistryModel { channels: r.channels.update(idx, spec_recv_next(r.channels[idx], sub)), ..r }
}

/// The topic registry.
pub struct Registry {
    names: Vec<String>,
    channels: Vec<Channel>,
}

impl View for Registry {
    type V = RegistryModel;

    closed spec fn view(&self) -> RegistryModel {
        RegistryModel {
            names: self.names@.map_values(|s: String| s@),
            channels: self.channels@.map_values(|c: Channel| c@),
        }
    }
}

impl Registry {
    pub fn new() -> (r: Registry)
        ensures
            r@ == RegistryModel::empty(),
            r@.wf(),
    {
        let r = Registry { names: Vec::new(), channels: Vec::new() };
        proof {
            assert(r@.names =~= Seq::<Seq<char>>::empty());
            assert(r@.channels =~= Seq::<ChannelModel>::empty());
            assert(r@ =~= RegistryModel::empty());
        }
        r
    }

    /// Get-or-create resolution: hand back the position of the topic's
    /// channel, creating a fresh empty channel the first time the name is
    /// seen. Never fails, and never removes or reorders topics, so the
    /// position stays valid for the life of the registry.
    pub fn resolve(&mut self, name: &String) -> (idx: usize)
        requires
            old(self)@.wf(),
        ensures
            final(self)@.wf(),
            idx < final(self)@.names.len(),
            final(self)@.names[idx as int] == name@,
            (final(self)@, idx as int) == spec_reg_resolve(old(self)@, name@),
    {
        let ghost m = self@;
        let n = self.names.len();
        for i in 0..n
            invariant
                n == m.names.len(),
                self@ == m,
                m.wf(),
                forall|j: int| 0 <= j < i ==> m.names[j] != name@,
        {
            if self.names[i] == *name {
                proof {
                    assert(m.names[i as int] == name@);
                    assert(m.has_topic(name@));
                    assert(m.index_of(name@) == i);
                }
                return i;
            }
        }
        proof {
            assert(!m.has_topic(name@));
        }
        self.names.push(name.clone());
        self.channels.push(Channel::new());
        proof {
            assert(self@.names =~= m.names.push(name@));
            assert(self@.channels =~= m.channels.push(ChannelModel::empty()));
            assert(self@ =~= spec_reg_resolve(m, name@).0);
        }
        n
    }

    /// Whether one more frame can enter this topic's channel without
    /// exhausting its index counter. True for any state a machine can reach.
    pub fn can_publish_to(&self, idx: usize) -> (r: bool)
        requires
            self@.wf(),
            idx < self@.channels.len(),
        ensures
            r == (self@.channels[idx as int].next() < u64::MAX),
    {
        proof {
            assert(self.channels@[idx as int]@ == self@.channels[idx as int]);
            assert(self@.channels[idx as int].wf());
        }
        self.channels[idx].can_publish()
    }

    /// Publish one frame on the topic at `idx`. Touches no other topic.
    pub fn publish_to(&mut self, idx: usize, frame: Vec<u8>)
        requires
            old(self)@.wf(),
            idx < old(self)@.channels.len(),
            old(self)@.channels[idx as int].next() < u64::MAX,
        ensures
            final(self)@ == spec_reg_publish(old(self)@, idx as int, frame@),
            final(self)@.wf(),
    {
        let ghost m = self@;
        proof {
            assert(self.channels@[idx as int]@ == m.channels[idx as int]);
            assert(m.channels[idx as int].wf());
        }
        self.channels[idx].publish(frame);
        proof {
            assert(self@.names =~= m.names);
            assert(self@.channels =~= m.channels.update(
                idx as int,
                spec_publish(m.channels[idx as int], frame@),
            ));
            assert(self@ =~= spec_reg_publish(m, idx as int, frame@));
        }
    }

    /// Attach a new subscriber to the topic at `idx`; hand back its cursor
    /// handle. Touches no other topic and no other cursor.
    pub fn subscribe_to(&mut self, idx: usize) -> (sub: usize)
        requires
            old(self)@.wf(),
            idx < old(self)@.channels.len(),
        ensures
            final(self)@ == spec_reg_subscribe(old(self)@, idx as int),
            final(self)@.wf(),
            sub == old(self)@.channels[idx as int].cursors.len(),
    {
        let ghost m = self@;
        proof {
            assert(self.channels@[idx as int]@ == m.channels[idx as int]);
            assert(m.channels[idx as int].wf());
        }
        let sub = self.channels[idx].subscribe();
        proof {
            assert(self@.names =~= m.names);
            assert(self@.channels =~= m.channels.update(
                idx as int,
                spec_subscribe(m.channels[idx as int]),
            ));
            assert(self@ =~= spec_reg_subscribe(m, idx as int));
        }
        sub
    }

    /// Read one frame on cursor `sub` of the topic at `idx`. Touches no
    /// other topic and no other cursor.
    pub fn recv_from(&mut self, idx: usize, sub: usize) -> (r: RecvOutcome)
        requires
            old(self)@.wf(),
            idx < old(self)@.channels.len(),
            sub < old(self)@.channels[idx as int].cursors.len(),
        ensures
            final(self)@ == spec_reg_recv(old(self)@, idx as int, sub as int),
            final(self)@.wf(),
            r@ == spec_recv_class(old(self)@.channels[idx as int], sub as int),
    {
        let ghost m = self@;
        proof {
            assert(self.channels@[idx as int]@ == m.channels[idx as int]);
            assert(m.channels[idx as int].wf());
        }
        let r = self.channels[idx].recv(sub);
        proof {
            assert(self@.names =~= m.names);
            assert(self@.channels =~= m.channels.update(
                idx as int,
                spec_recv_next(m.channels[idx as int], sub as int),
            ));
            assert(self@ =~= spec_reg_recv(m, idx as int, sub as int));
        }
        r
    }
}

/// At most one channel ever exists per distinct topic name: resolution
/// leaves the registry well-formed with the name present, and every later
/// resolution of the same name finds the same position and changes nothing
/// — the first caller alone creates the topic.
pub proof fn lemma_resolve_idempotent(r: RegistryModel, name: Seq<char>)
    requires
        r.wf(),
    ensures
        spec_reg_resolve(r, name).0.wf(),
        spec_reg_resolve(r, name).0.has_topic(name),
        spec_reg_resolve(spec_reg_resolve(r, name).0, name).0 == spec_reg_resolve(r, name).0,
        spec_reg_resolve(spec_reg_resolve(r, name).0, name).1 == spec_reg_resolve(r, name).1,
{
    let r1 = spec_reg_resolve(r, name).0;
    let idx = spec_reg_resolve(r, name).1;
    if r.has_topic(name) {
        assert(r1.names[idx] == name);
    } else {
        assert(r1.names[r.names.len() as int] == name);
        assert(r1.has_topic(name));
        assert forall|i: int, j: int|
            0 <= i < r1.names.len() && 0 <= j < r1.names.len() && i != j implies r1.names[i]
            != r1.names[j] by {
            if i < r.names.len() && j < r.names.len() {
                assert(r.names[i] != r.names[j]);
            }
        }
        assert(r1.wf());
    }
    assert(r1.names[r1.index_of(name)] == name);
    assert(r1.index_of(name) == idx);
}

/// Topic names are compared verbatim — case included — so distinct names
/// own distinct channels, and traffic through one topic is never observed
/// through a differently-named topic: its channel, cursors included, is
/// left exactly as it was.
pub proof fn lemma_topics_isolated(r: RegistryModel, i: int, j: int, frame: Seq<u8>)
    requires
        r.wf(),
        0 <= i < r.names.len(),
        0 <= j < r.names.len(),
        r.names[i] != r.names[j],
    ensures
        i != j,
        spec_reg_publish(r, i, frame).channels[j] == r.channels[j],
        spec_reg_subscribe(r, i).channels[j] == r.channels[j],
{
}

} // verus!
