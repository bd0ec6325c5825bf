//! The configuration cell: one current snapshot, read without blocking and
//! replaced as a whole.
//!
//! A [`Snapshot`] is an immutable record. A [`ConfigCell`] always holds exactly
//! one of them. The cell is the writing end: whoever owns it replaces the
//! snapshot, and knows at every moment which one is current. Any number of
//! [`ConfigReader`] handles can be taken from a cell and moved to other
//! threads; a reader never waits for the writer and never sees a snapshot that
//! is only partly in place, because what changes hands is a pointer to a
//! complete record.
//!
//! The slot itself is an `arc_swap::ArcSwap`. Verus cannot look inside it, so
//! the types and functions in the first half of this file are believed, not
//! proved: each says in its doc comment what it claims of `arc_swap`.

use arc_swap::ArcSwap;
use std::sync::Arc;
use vstd::prelude::*;

verus! {

/// An immutable configuration record, valid at a point in time.
///
/// The core does not interpret the settings. It keeps the record as the bytes
/// that the program obtained from the persisted source.
#[derive(Clone, Debug, PartialEq, Eq)]
pub struct Snapshot {
    bytes: Vec<u8>,
}

impl View for Snapshot {
    type V = Seq<u8>;

    closed spec fn view(&self) -> Seq<u8> {
        self.bytes@
    }
}

impl Snapshot {
    /// A snapshot holding `bytes`.
    pub fn new(bytes: Vec<u8>) -> (snapshot: Snapshot)
        ensures
            snapshot@ == bytes@,
    {
        Snapshot { bytes }
    }

    /// The record's content.
    pub fn as_bytes(&self) -> (bytes: &Vec<u8>)
        ensures
            bytes@ == self@,
    {
        &self.bytes
    }
}

/// What came back from the persisted configuration source at startup.
pub enum ConfigSource {
    /// The source does not exist.
    Missing,
    /// The source exists and its content could not be understood.
    Malformed,
    /// The source was read; these are the settings.
    Loaded(Vec<u8>),
}

/// Why no initial snapshot could be made. Startup does not continue past it.
#[derive(Clone, Copy, Debug, PartialEq, Eq, Structural)]
pub enum ConfigLoadError {
    /// The backing source is missing.
    Missing,
    /// The backing source is malformed.
    Malformed,
}

impl Snapshot {
    /// Makes the initial snapshot from what the source returned.
    ///
    /// Succeeds exactly when the source was read, with a snapshot of what was
    /// read; a missing or malformed source gives the matching error.
    pub fn try_load(source: ConfigSource) -> (loaded: Result<Snapshot, ConfigLoadError>)
        ensures
            (match source {
                ConfigSource::Missing => loaded == Err::<Snapshot, _>(ConfigLoadError::Missing),
                ConfigSource::Malformed => loaded == Err::<Snapshot, _>(ConfigLoadError::Malformed),
                ConfigSource::Loaded(bytes) => loaded matches Ok(snapshot) && snapshot@ == bytes@,
            }),
    {
        match source {
            ConfigSource::Missing => Err(ConfigLoadError::Missing),
            ConfigSource::Malformed => Err(ConfigLoadError::Malformed),
            ConfigSource::Loaded(bytes) => Ok(Snapshot::new(bytes)),
        }
    }
}

/// The writing end of an `arc_swap::ArcSwap<Snapshot>`.
///
/// Verus sees no field of it. The swap cell is reached only through the
/// functions below, and only [`slot_store`] changes what it holds.
#[verifier::external_body]
pub struct SnapshotSlot {
    shared: Arc<ArcSwap<Snapshot>>,
}

/// A reading end of the same swap cell, for other threads.
///
/// Verus sees no field of it, and nothing is claimed about what it holds: the
/// writing end may replace the snapshot at any moment.
#[verifier::external_body]
pub struct SnapshotTap {
    shared: Arc<ArcSwap<Snapshot>>,
}

/// The content of the snapshot that a slot holds.
pub uninterp spec fn slot_contents(slot: SnapshotSlot) -> Seq<u8>;

/// `ArcSwap::from_pointee`, inside a fresh `Arc`.
///
/// Claims that the new cell holds `initial`.
#[verifier::external_body]
fn slot_new(initial: Snapshot) -> (slot: SnapshotSlot)
    ensures
        slot_contents(slot) == initial@,
{
    SnapshotSlot { shared: Arc::new(ArcSwap::from_pointee(initial)) }
}

/// `ArcSwapAny::load_full`, called by the writing end.
///
/// Claims that the pointer returned is to the snapshot that the cell holds.
/// The cell is not changed. Nothing but [`slot_store`] stores into it, and that
/// takes the slot by `&mut`, so no store can run beside this load.
#[verifier::external_body]
fn slot_load(slot: &SnapshotSlot) -> (held: Arc<Snapshot>)
    ensures
        held@ == slot_contents(*slot),
{
    slot.shared.load_full()
}

/// `ArcSwapAny::store`.
///
/// Claims that afterwards the cell holds `new`: "further loads will yield the
/// new value".
#[verifier::external_body]
fn slot_store(slot: &mut SnapshotSlot, new: Snapshot)
    ensures
        slot_contents(*final(slot)) == new@,
{
    slot.shared.store(Arc::new(new));
}

/// `Arc::clone` of the pointer to the swap cell, handed out as a reading end.
#[verifier::external_body]
fn slot_tap(slot: &SnapshotSlot) -> (tap: SnapshotTap) {
    SnapshotTap { shared: Arc::clone(&slot.shared) }
}

/// `ArcSwapAny::load_full`, called by a reading end.
///
/// Nothing is claimed of the result: which snapshot it is depends on when the
/// writing end last stored.
#[verifier::external_body]
fn tap_load(tap: &SnapshotTap) -> (held: Arc<Snapshot>) {
    tap.shared.load_full()
}

/// Holds the current configuration snapshot.
///
/// Beside the slot, the cell carries a ghost record of every snapshot it has
/// held, in order: the one it was made with, then each one given to
/// [`replace`](ConfigCell::replace). Contracts speak of that record; the
/// compiled cell is the slot alone.
pub struct ConfigCell {
    slot: SnapshotSlot,
    log: Ghost<Seq<Seq<u8>>>,
}

impl ConfigCell {
    /// Every snapshot the cell has held, oldest first.
    pub closed spec fn history(&self) -> Seq<Seq<u8>> {
        self.log@
    }

    /// The snapshot the cell holds now: the last one that entered it.
    pub open spec fn current(&self) -> Seq<u8> {
        self.history().last()
    }

    /// The cell holds the latest entry of its history.
    pub closed spec fn wf(&self) -> bool {
        &&& self.log@.len() > 0
        &&& slot_contents(self.slot) == self.log@.last()
    }

    /// A cell that holds `initial`.
    pub fn new(initial: Snapshot) -> (cell: ConfigCell)
        ensures
            cell.wf(),
            cell.history() == seq![initial@],
    {
        let ghost first = initial@;
        let slot = slot_new(initial);
        let log: Ghost<Seq<Seq<u8>>> = Ghost(Seq::empty().push(first));
        ConfigCell { slot, log }
    }

    /// The currently active snapshot. Never blocks and never fails.
    ///
    /// The pointer stays valid, and keeps pointing to the same record, however
    /// often the cell is replaced afterwards.
    pub fn read(&self) -> (snapshot: Arc<Snapshot>)
        requires
            self.wf(),
        ensures
            snapshot@ == self.current(),
            self.history().contains(snapshot@),
    {
        slot_load(&self.slot)
    }

    /// Makes `new` the active snapshot, as one step.
    pub fn replace(&mut self, new: Snapshot)
        requires
            old(self).wf(),
        ensures
            final(self).wf(),
            final(self).history() == old(self).history().push(new@),
    {
        let ghost entered = new@;
        slot_store(&mut self.slot, new);
        self.log = Ghost(self.log@.push(entered));
    }

    /// A handle through which another thread reads this cell.
    pub fn reader(&self) -> (reader: ConfigReader) {
        ConfigReader { tap: slot_tap(&self.slot) }
    }
}

/// A read-only handle on a [`ConfigCell`], for use beside the writer.
pub struct ConfigReader {
    tap: SnapshotTap,
}

impl ConfigReader {
    /// A complete snapshot that the cell held at some moment up to now.
    ///
    /// Never blocks and never fails. The writer may replace the snapshot at any
    /// time, so which one is returned is not fixed by anything the caller holds.
    pub fn read(&self) -> (snapshot: Arc<Snapshot>) {
        tap_load(&self.tap)
    }
}

/// A cell that was made with `initial` and then given `replaced`, one by one,
/// has this history.
pub open spec fn history_after(initial: Seq<u8>, replaced: Seq<Seq<u8>>) -> Seq<Seq<u8>> {
    seq![initial] + replaced
}

/// Whatever a cell holds is the snapshot it was made with or one that was given
/// to `replace`, and it is the latest of them: after at least one `replace`,
/// the cell no longer holds its first snapshot unless that one was given again.
pub proof fn law_current_is_latest(cell: ConfigCell, initial: Seq<u8>, replaced: Seq<Seq<u8>>)
    requires
        cell.wf(),
        cell.history() == history_after(initial, replaced),
    ensures
        cell.current() == initial || replaced.contains(cell.current()),
        replaced.len() == 0 ==> cell.current() == initial,
        replaced.len() > 0 ==> cell.current() == replaced.last(),
{
}

/// One call on a cell, for reasoning about calls in the order in which they
/// take effect.
pub enum CellOp {
    /// `replace` with this snapshot.
    Replace(Seq<u8>),
    /// `read`.
    Read,
}

/// The snapshots given to `replace` among `ops`, in order.
pub open spec fn replaced_by(ops: Seq<CellOp>) -> Seq<Seq<u8>>
    decreases ops.len(),
{
    if ops.len() == 0 {
        Seq::empty()
    } else {
        match ops.last() {
            CellOp::Replace(snapshot) => replaced_by(ops.drop_last()).push(snapshot),
            CellOp::Read => replaced_by(ops.drop_last()),
        }
    }
}

/// What a cell made with `initial` holds once `ops` have taken effect, which is
/// what a `read` at that point returns.
pub open spec fn held_after(initial: Seq<u8>, ops: Seq<CellOp>) -> Seq<u8> {
    history_after(initial, replaced_by(ops)).last()
}

/// However calls of `replace` and `read` follow one another, a `read` returns
/// the snapshot of the latest `replace` before it, or, where none came before
/// it, the initial snapshot. So it never returns anything that was not handed
/// to the cell whole, and never an older snapshot once a newer one is in
/// place.
pub proof fn law_read_returns_latest_replace(initial: Seq<u8>, ops: Seq<CellOp>, at: int)
    requires
        0 <= at <= ops.len(),
    ensures
        ({
            let seen = held_after(initial, ops.take(at));
            ||| seen == initial && forall|j: int| 0 <= j < at ==> ops[j] is Read
            ||| exists|i: int|
                0 <= i < at && ops[i] == CellOp::Replace(seen) && forall|j: int|
                    i < j < at ==> ops[j] is Read
        }),
    decreases at,
{
    let before = ops.take(at);
    if at == 0 {
        assert(replaced_by(before) =~= Seq::<Seq<u8>>::empty());
    } else {
        assert(before.drop_last() =~= ops.take(at - 1));
        assert(before.last() == ops[at - 1]);
        match ops[at - 1] {
            CellOp::Replace(snapshot) => {
                assert(held_after(initial, before) == snapshot);
                assert(ops[at - 1] == CellOp::Replace(snapshot));
            },
            CellOp::Read => {
                law_read_returns_latest_replace(initial, ops, at - 1);
                let seen = held_after(initial, ops.take(at - 1));
                assert(held_after(initial, before) == seen);
                if !(seen == initial && forall|j: int| 0 <= j < at - 1 ==> ops[j] is Read) {
                    let i = choose|i: int|
                        0 <= i < at - 1 && ops[i] == CellOp::Replace(seen) && forall|j: int|
                            i < j < at - 1 ==> ops[j] is Read;
                    assert(0 <= i < at && ops[i] == CellOp::Replace(seen) && forall|j: int|
                        i < j < at ==> ops[j] is Read);
                }
            },
        }
    }
}

/// The model above is the cell: `replace` appends what it is given to the
/// history, and `read` leaves the history alone.
pub proof fn law_history_follows_calls(initial: Seq<u8>, ops: Seq<CellOp>, next: CellOp)
    ensures
        history_after(initial, replaced_by(ops.push(next))) == (match next {
            CellOp::Replace(snapshot) => history_after(initial, replaced_by(ops)).push(snapshot),
            CellOp::Read => history_after(initial, replaced_by(ops)),
        }),
        history_after(initial, replaced_by(Seq::empty())) == seq![initial],
{
    assert(ops.push(next).drop_last() =~= ops);
    assert(ops.push(next).last() == next);
    match next {
        CellOp::Replace(snapshot) => {
            assert(history_after(initial, replaced_by(ops).push(snapshot)) =~= history_after(
                initial,
                replaced_by(ops),
            ).push(snapshot));
        },
        CellOp::Read => {},
    }
    assert(history_after(initial, replaced_by(Seq::empty())) =~= seq![initial]);
}

} // verus!
