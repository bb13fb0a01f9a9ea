//! The drivers of one connection, each under the identifier of its substream.
//!
//! This is what a connection handler holds: it opens a driver for every substream it
//! asks for or accepts, routes what happens on a substream and what the owner commands
//! to the driver of that substream, and hands back what the driver surfaces together
//! with the identifier. A driver that reaches a terminal state is dropped, so nothing
//! can be routed to it any more.

use vstd::prelude::*;
use crate::codec::Message;
use crate::driver::{Driver, Io, Phase, Progress, UsageError};

verus! {

/// Identifies a substream for as long as the connection lives; never given out twice.
pub type SubstreamId = u64;

/// Why a call on a substream of the connection was turned down.
#[derive(Debug, Clone, Copy, PartialEq, Eq)]
pub enum SubstreamError {
    /// No driver is held under that identifier.
    UnknownSubstream,
    /// The driver turned the call down.
    Usage(UsageError),
}

struct Entry<D> {
    id: SubstreamId,
    driver: D,
}

/// The drivers of the substreams of one connection.
pub struct Substreams<D: Driver> {
    issued: u64,
    entries: Vec<Entry<D>>,
}

spec fn holds<D>(entries: Seq<Entry<D>>, id: SubstreamId) -> bool {
    exists|i: int| 0 <= i < entries.len() && #[trigger] entries[i].id == id
}

spec fn position<D>(entries: Seq<Entry<D>>, id: SubstreamId) -> int {
    choose|i: int| 0 <= i < entries.len() && #[trigger] entries[i].id == id
}

spec fn ascending<D>(entries: Seq<Entry<D>>) -> bool {
    forall|i: int, j: int| 0 <= i < j < entries.len() ==> #[trigger] entries[i].id < #[trigger] entries[j].id
}

spec fn mapping<D>(entries: Seq<Entry<D>>) -> Map<SubstreamId, D> {
    Map::new(|id: SubstreamId| holds(entries, id), |id: SubstreamId| entries[position(entries, id)].driver)
}

proof fn entry_is_mapped<D>(entries: Seq<Entry<D>>, i: int)
    requires
        ascending(entries),
        0 <= i < entries.len(),
    ensures
        holds(entries, entries[i].id),
        position(entries, entries[i].id) == i,
        mapping(entries).dom().contains(entries[i].id),
        mapping(entries)[entries[i].id] == entries[i].driver,
{
    let p = position(entries, entries[i].id);
    assert(0 <= p < entries.len() && entries[p].id == entries[i].id);
    if p < i {
        assert(entries[p].id < entries[i].id);
    } else if i < p {
        assert(entries[i].id < entries[p].id);
    }
}

proof fn mapping_after_push<D>(entries: Seq<Entry<D>>, entry: Entry<D>)
    requires
        ascending(entries),
        forall|i: int| 0 <= i < entries.len() ==> (#[trigger] entries[i]).id < entry.id,
    ensures
        ascending(entries.push(entry)),
        !holds(entries, entry.id),
        mapping(entries.push(entry)) =~= mapping(entries).insert(entry.id, entry.driver),
{
    let after = entries.push(entry);
    assert(ascending(after));
    assert forall|id: SubstreamId| holds(after, id) <==> (holds(entries, id) || id == entry.id) by {
        if holds(after, id) {
            let i = position(after, id);
            if i < entries.len() {
                assert(entries[i].id == id);
            }
        }
        if holds(entries, id) {
            let i = position(entries, id);
            assert(after[i].id == id);
        }
        if id == entry.id {
            assert(after[entries.len() as int].id == id);
        }
    }
    assert forall|id: SubstreamId| holds(entries, id) implies #[trigger] mapping(after)[id] == mapping(entries)[id] by {
        let i = position(entries, id);
        entry_is_mapped(entries, i);
        assert(after[i].id == id);
        entry_is_mapped(after, i);
    }
    entry_is_mapped(after, entries.len() as int);
}

proof fn mapping_after_update<D>(entries: Seq<Entry<D>>, i: int, entry: Entry<D>)
    requires
        ascending(entries),
        0 <= i < entries.len(),
        entry.id == entries[i].id,
    ensures
        ascending(entries.update(i, entry)),
        mapping(entries.update(i, entry)) =~= mapping(entries).insert(entry.id, entry.driver),
{
    let after = entries.update(i, entry);
    assert forall|a: int, b: int| 0 <= a < b < after.len() implies #[trigger] after[a].id < #[trigger] after[b].id by {
        assert(entries[a].id < entries[b].id);
    }
    assert forall|id: SubstreamId| holds(after, id) <==> holds(entries, id) by {
        if holds(after, id) {
            let k = position(after, id);
            assert(entries[k].id == id);
        }
        if holds(entries, id) {
            let k = position(entries, id);
            assert(after[k].id == id);
        }
    }
    entry_is_mapped(entries, i);
    assert forall|id: SubstreamId| holds(entries, id) && id != entry.id implies #[trigger] mapping(after)[id]
        == mapping(entries)[id] by {
        let k = position(entries, id);
        entry_is_mapped(entries, k);
        assert(after[k].id == id);
        entry_is_mapped(after, k);
    }
    entry_is_mapped(after, i);
}

proof fn mapping_after_remove<D>(entries: Seq<Entry<D>>, i: int)
    requires
        ascending(entries),
        0 <= i < entries.len(),
    ensures
        ascending(entries.remove(i)),
        mapping(entries.remove(i)) =~= mapping(entries).remove(entries[i].id),
{
    let after = entries.remove(i);
    let gone = entries[i].id;
    assert forall|a: int, b: int| 0 <= a < b < after.len() implies #[trigger] after[a].id < #[trigger] after[b].id by {
        let a0 = if a < i { a } else { a + 1 };
        let b0 = if b < i { b } else { b + 1 };
        assert(after[a] == entries[a0] && after[b] == entries[b0]);
        assert(entries[a0].id < entries[b0].id);
    }
    assert forall|id: SubstreamId| holds(after, id) <==> (holds(entries, id) && id != gone) by {
        if holds(after, id) {
            let k = position(after, id);
            let k0 = if k < i { k } else { k + 1 };
            assert(after[k] == entries[k0]);
            assert(entries[k0].id == id);
            if k0 < i {
                assert(entries[k0].id < entries[i].id);
            } else {
                assert(entries[i].id < entries[k0].id);
            }
        }
        if holds(entries, id) && id != gone {
            let k = position(entries, id);
            let k1 = if k < i { k } else { k - 1 };
            assert(after[k1] == entries[k]);
            assert(after[k1].id == id);
        }
    }
    assert forall|id: SubstreamId| holds(entries, id) && id != gone implies #[trigger] mapping(after)[id]
        == mapping(entries)[id] by {
        let k = position(entries, id);
        entry_is_mapped(entries, k);
        let k1 = if k < i { k } else { k - 1 };
        assert(after[k1] == entries[k]);
        entry_is_mapped(after, k1);
    }
}

/// What `advance` hands to the owner of the connection: the event or the failure
/// that the driver surfaced, with the identifier of its substream.
pub open spec fn yielded<E, F>(id: SubstreamId, progress: Progress<E, F>) -> Option<
    (SubstreamId, Result<E, F>),
> {
    match progress {
        Progress::Event(event) => Some((id, Ok(event))),
        Progress::Failed(error) => Some((id, Err(error))),
        _ => None,
    }
}

/// The drivers after `io` was reported for substream `id`, and what the owner is
/// handed. A driver that has become terminal is dropped.
pub open spec fn advanced<D: Driver>(drivers: Map<SubstreamId, D>, id: SubstreamId, io: Io) -> (
    Map<SubstreamId, D>,
    Result<Option<(SubstreamId, Result<D::OutEvent, D::Error>)>, SubstreamError>,
) {
    if !drivers.dom().contains(id) {
        (drivers, Err(SubstreamError::UnknownSubstream))
    } else {
        let (next, told) = drivers[id].advanced(io);
        match told {
            Ok(progress) => (
                if next.phase().terminal() {
                    drivers.remove(id)
                } else {
                    drivers.insert(id, next)
                },
                Ok(yielded(id, progress)),
            ),
            Err(fault) => (drivers, Err(SubstreamError::Usage(fault))),
        }
    }
}

/// The drivers after `event` was injected into substream `id`, and whether it was
/// accepted.
pub open spec fn injected<D: Driver>(drivers: Map<SubstreamId, D>, id: SubstreamId, event: D::InEvent) -> (
    Map<SubstreamId, D>,
    Result<(), SubstreamError>,
) {
    if !drivers.dom().contains(id) {
        (drivers, Err(SubstreamError::UnknownSubstream))
    } else {
        let (next, taken) = drivers[id].injected(event);
        match taken {
            Ok(_) => (drivers.insert(id, next), Ok(())),
            Err(fault) => (drivers, Err(SubstreamError::Usage(fault))),
        }
    }
}

/// Substreams do not touch one another: what is reported for one, injected into
/// one, or the closing of one leaves the driver of every other substream as it was.
pub proof fn other_substreams_are_untouched<D: Driver>(
    drivers: Map<SubstreamId, D>,
    id: SubstreamId,
    other: SubstreamId,
    io: Io,
    event: D::InEvent,
)
    requires
        other != id,
    ensures
        advanced(drivers, id, io).0.dom().contains(other) == drivers.dom().contains(other),
        injected(drivers, id, event).0.dom().contains(other) == drivers.dom().contains(other),
        drivers.remove(id).dom().contains(other) == drivers.dom().contains(other),
        drivers.dom().contains(other) ==> advanced(drivers, id, io).0[other] == drivers[other] && injected(
            drivers,
            id,
            event,
        ).0[other] == drivers[other] && drivers.remove(id)[other] == drivers[other],
{
}

/// A driver is dropped exactly when it has become terminal, and what it surfaced
/// on the way is handed on with its identifier.
pub proof fn terminal_drivers_are_dropped<D: Driver>(drivers: Map<SubstreamId, D>, id: SubstreamId, io: Io)
    requires
        drivers.dom().contains(id),
        drivers[id].advanced(io).1 is Ok,
    ensures
        advanced(drivers, id, io).0.dom().contains(id) <==> !drivers[id].advanced(io).0.phase().terminal(),
        advanced(drivers, id, io).1 == Ok::<
            Option<(SubstreamId, Result<D::OutEvent, D::Error>)>,
            SubstreamError,
        >(yielded(id, drivers[id].advanced(io).1->Ok_0)),
{
}

impl<D: Driver> View for Substreams<D> {
    type V = Map<SubstreamId, D>;

    /// The driver of each live substream, by identifier.
    closed spec fn view(&self) -> Map<SubstreamId, D> {
        mapping(self.entries@)
    }
}

impl<D: Driver> Substreams<D> {
    /// What holds of every value that `new` and the methods below produce:
    /// identifiers are unique and below `issued`.
    pub closed spec fn well_formed(&self) -> bool {
        &&& ascending(self.entries@)
        &&& forall|i: int| 0 <= i < self.entries@.len() ==> (#[trigger] self.entries@[i]).id < self.issued
    }

    /// How many identifiers were given out so far. The next one is this number.
    pub closed spec fn issued(&self) -> nat {
        self.issued as nat
    }

    pub fn new() -> (substreams: Self)
        ensures
            substreams.well_formed(),
            substreams@ == Map::<SubstreamId, D>::empty(),
            substreams.issued() == 0,
    {
        let substreams = Substreams { issued: 0, entries: Vec::new() };
        assert(substreams@ =~= Map::<SubstreamId, D>::empty());
        substreams
    }

    fn find(&self, id: SubstreamId) -> (found: Option<usize>)
        requires
            self.well_formed(),
        ensures
            match found {
                Some(i) => i < self.entries@.len() && self.entries@[i as int].id == id && self@.dom().contains(
                    id,
                ) && self@[id] == self.entries@[i as int].driver,
                None => !self@.dom().contains(id),
            },
    {
        let mut i: usize = 0;
        while i < self.entries.len()
            invariant
                self.well_formed(),
                i <= self.entries@.len(),
                forall|k: int| 0 <= k < i ==> (#[trigger] self.entries@[k]).id != id,
            decreases self.entries@.len() - i,
        {
            if self.entries[i].id == id {
                proof {
                    entry_is_mapped(self.entries@, i as int);
                }
                return Some(i);
            }
            i += 1;
        }
        assert(!holds(self.entries@, id));
        None
    }

    /// Whether no driver is held.
    pub fn is_empty(&self) -> (empty: bool)
        requires
            self.well_formed(),
        ensures
            empty == (self@ == Map::<SubstreamId, D>::empty()),
    {
        let empty = self.entries.len() == 0;
        proof {
            if empty {
                assert(self@ =~= Map::<SubstreamId, D>::empty());
            } else {
                entry_is_mapped(self.entries@, 0);
                assert(self@.dom().contains(self.entries@[0].id));
            }
        }
        empty
    }

    /// Identifiers are given out in order and never reused: every live substream
    /// has an identifier below the number given out, and `open` gives out that
    /// number next.
    pub proof fn live_identifiers_were_issued(&self, id: SubstreamId)
        requires
            self.well_formed(),
            self@.dom().contains(id),
        ensures
            id < self.issued(),
    {
        let i = position(self.entries@, id);
        assert(self.entries@[i].id == id);
    }

    /// Starts the driver of a new substream and gives out its identifier: the
    /// number of identifiers given out before. `None`, with nothing changed, once
    /// every identifier has been given out.
    pub fn open(&mut self, open_info: D::OpenInfo) -> (id: Option<SubstreamId>)
        requires
            old(self).well_formed(),
        ensures
            final(self).well_formed(),
            match id {
                Some(id) => {
                    &&& id == old(self).issued()
                    &&& !old(self)@.dom().contains(id)
                    &&& final(self)@ == old(self)@.insert(id, D::opened(open_info))
                    &&& final(self).issued() == old(self).issued() + 1
                },
                None => old(self).issued() == u64::MAX && *final(self) == *old(self),
            },
    {
        if self.issued == u64::MAX {
            return None;
        }
        let id = self.issued;
        let driver = D::new(open_info);
        proof {
            mapping_after_push(self.entries@, Entry { id, driver });
        }
        self.issued = self.issued + 1;
        self.entries.push(Entry { id, driver });
        Some(id)
    }

    /// The phase of the driver of substream `id`, if one is held.
    pub fn phase(&self, id: SubstreamId) -> (phase: Option<Phase>)
        requires
            self.well_formed(),
        ensures
            phase == (if self@.dom().contains(id) {
                Some(self@[id].phase())
            } else {
                None
            }),
    {
        match self.find(id) {
            Some(i) => Some(self.entries[i].driver.current_phase()),
            None => None,
        }
    }

    /// The message that the driver of substream `id` has queued for writing.
    pub fn pending_message(&self, id: SubstreamId) -> (message: Option<&Message>)
        requires
            self.well_formed(),
        ensures
            match message {
                Some(m) => self@.dom().contains(id) && self@[id].queued() == Some(*m),
                None => !self@.dom().contains(id) || self@[id].queued() is None,
            },
    {
        match self.find(id) {
            Some(i) => self.entries[i].driver.pending_message(),
            None => None,
        }
    }

    /// Reports to the driver of substream `id` what happened on that substream.
    pub fn advance(&mut self, id: SubstreamId, io: Io) -> (result: Result<
        Option<(SubstreamId, Result<D::OutEvent, D::Error>)>,
        SubstreamError,
    >)
        requires
            old(self).well_formed(),
        ensures
            final(self).well_formed(),
            (final(self)@, result) == advanced(old(self)@, id, io),
            final(self).issued() == old(self).issued(),
    {
        match self.find(id) {
            None => Err(SubstreamError::UnknownSubstream),
            Some(i) => {
                let ghost before = self.entries@;
                let told = self.entries[i].driver.advance(io);
                proof {
                    mapping_after_update(before, i as int, self.entries@[i as int]);
                    assert(self.entries@ =~= before.update(i as int, self.entries@[i as int]));
                }
                match told {
                    Err(fault) => {
                        proof {
                            before[i as int].driver.advance_keeps_shape(io);
                            assert(self.entries@ =~= before);
                        }
                        Err(SubstreamError::Usage(fault))
                    },
                    Ok(progress) => {
                        if self.entries[i].driver.current_phase().is_terminal() {
                            proof {
                                mapping_after_remove(self.entries@, i as int);
                            }
                            let _ = self.entries.remove(i);
                            assert(self@ =~= old(self)@.remove(id));
                        }
                        match progress {
                            Progress::Event(event) => Ok(Some((id, Ok(event)))),
                            Progress::Failed(error) => Ok(Some((id, Err(error)))),
                            _ => Ok(None),
                        }
                    },
                }
            },
        }
    }

    /// Hands a command of the owner to the driver of substream `id`.
    pub fn inject(&mut self, id: SubstreamId, event: D::InEvent) -> (result: Result<(), SubstreamError>)
        requires
            old(self).well_formed(),
        ensures
            final(self).well_formed(),
            (final(self)@, result) == injected(old(self)@, id, event),
            final(self).issued() == old(self).issued(),
    {
        match self.find(id) {
            None => Err(SubstreamError::UnknownSubstream),
            Some(i) => {
                let ghost before = self.entries@;
                let taken = self.entries[i].driver.inject(event);
                proof {
                    mapping_after_update(before, i as int, self.entries@[i as int]);
                    assert(self.entries@ =~= before.update(i as int, self.entries@[i as int]));
                }
                match taken {
                    Err(fault) => {
                        proof {
                            before[i as int].driver.inject_keeps_shape(event);
                            assert(self.entries@ =~= before);
                        }
                        Err(SubstreamError::Usage(fault))
                    },
                    Ok(_) => Ok(()),
                }
            },
        }
    }

    /// Closes the driver of substream `id` and drops it. Returns whether the driver
    /// held its substream until now, that is, whether the substream has to be let go;
    /// `None`, with nothing changed, where no driver is held under `id`.
    pub fn close(&mut self, id: SubstreamId) -> (released: Option<bool>)
        requires
            old(self).well_formed(),
        ensures
            final(self).well_formed(),
            released == (if old(self)@.dom().contains(id) {
                Some(old(self)@[id].phase().holds_substream())
            } else {
                None
            }),
            final(self)@ == old(self)@.remove(id),
            final(self).issued() == old(self).issued(),
    {
        match self.find(id) {
            None => {
                assert(self@ =~= old(self)@.remove(id));
                None
            },
            Some(i) => {
                proof {
                    mapping_after_remove(self.entries@, i as int);
                }
                let mut entry = self.entries.remove(i);
                Some(entry.driver.close())
            },
        }
    }
}

} // verus!
