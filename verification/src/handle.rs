//! The shared handle of an open device.
//!
//! One physical open is shared by every reader and writer of the device. The
//! handle counts them. The release that takes the last reader away detaches
//! the event bridge, and the release that takes the last reader or writer
//! away closes the native resource: once, and after the bridge is detached.

use vstd::prelude::*;

verus! {

/// Which side of a device a logical handle is.
#[derive(Debug, Clone, Copy, PartialEq, Eq, Structural)]
pub enum HandleKind {
    Reader,
    Writer,
}

/// What the backend has to do after a release, in this order.
#[derive(Debug, Clone, Copy, PartialEq, Eq, Structural)]
pub enum Teardown {
    /// Nothing: the device stays as it is.
    Nothing,
    /// Detach the event bridge, so that no further report is queued. The
    /// native resource stays open.
    DetachBridge,
    /// Close the native resource.
    CloseNative,
    /// Detach the event bridge, then close the native resource.
    DetachBridgeThenCloseNative,
}

/// The number of native close calls that `teardown` asks for.
pub open spec fn closes(teardown: Teardown) -> nat {
    match teardown {
        Teardown::CloseNative | Teardown::DetachBridgeThenCloseNative => 1,
        _ => 0,
    }
}

/// The number of times that `teardown` asks to detach the event bridge.
pub open spec fn detaches(teardown: Teardown) -> nat {
    match teardown {
        Teardown::DetachBridge | Teardown::DetachBridgeThenCloseNative => 1,
        _ => 0,
    }
}

/// The mathematical value of a [`SharedHandle`]: how many readers and how
/// many writers reference the open device.
pub struct HandleView {
    pub readers: nat,
    pub writers: nat,
}

impl HandleView {
    /// Whether the native resource is open: as long as a reader or a writer
    /// references it.
    pub open spec fn native_open(self) -> bool {
        self.readers + self.writers > 0
    }

    /// Whether the event bridge is attached: as long as a reader references
    /// the device.
    pub open spec fn bridge_attached(self) -> bool {
        self.readers > 0
    }

    /// The handle after one more logical handle of the given kind references
    /// the device.
    pub open spec fn retained(self, kind: HandleKind) -> HandleView {
        match kind {
            HandleKind::Reader => HandleView { readers: self.readers + 1, writers: self.writers },
            HandleKind::Writer => HandleView { readers: self.readers, writers: self.writers + 1 },
        }
    }

    /// The handle after a logical handle of the given kind is released, and
    /// what the backend has to do then. Where no handle of that kind is
    /// left, nothing changes and nothing is to be done.
    pub open spec fn released(self, kind: HandleKind) -> (HandleView, Teardown) {
        match kind {
            HandleKind::Reader => if self.readers == 0 {
                (self, Teardown::Nothing)
            } else {
                let after = HandleView {
                    readers: (self.readers - 1) as nat,
                    writers: self.writers,
                };
                if after.native_open() {
                    if after.bridge_attached() {
                        (after, Teardown::Nothing)
                    } else {
                        (after, Teardown::DetachBridge)
                    }
                } else {
                    (after, Teardown::DetachBridgeThenCloseNative)
                }
            },
            HandleKind::Writer => if self.writers == 0 {
                (self, Teardown::Nothing)
            } else {
                let after = HandleView {
                    readers: self.readers,
                    writers: (self.writers - 1) as nat,
                };
                if after.native_open() {
                    (after, Teardown::Nothing)
                } else {
                    (after, Teardown::CloseNative)
                }
            },
        }
    }

    /// The handle after the releases `kinds`, one after the other, and the
    /// number of native close calls that they ask for together.
    pub open spec fn released_all(self, kinds: Seq<HandleKind>) -> (HandleView, nat)
        decreases kinds.len(),
    {
        if kinds.len() == 0 {
            (self, 0)
        } else {
            let (next, teardown) = self.released(kinds[0]);
            let (last, later) = next.released_all(kinds.drop_first());
            (last, closes(teardown) + later)
        }
    }
}

/// The number of elements of `kinds` that are `kind`.
pub open spec fn count_of(kinds: Seq<HandleKind>, kind: HandleKind) -> nat
    decreases kinds.len(),
{
    if kinds.len() == 0 {
        0
    } else {
        (if kinds[0] == kind {
            1nat
        } else {
            0nat
        }) + count_of(kinds.drop_first(), kind)
    }
}

/// The state that the readers and writers of one open device share.
#[derive(Debug)]
pub struct SharedHandle {
    readers: usize,
    writers: usize,
}

impl View for SharedHandle {
    type V = HandleView;

    closed spec fn view(&self) -> HandleView {
        HandleView { readers: self.readers as nat, writers: self.writers as nat }
    }
}

impl SharedHandle {
    /// The handle of a device that was just opened for one reader, and for
    /// one writer too where `with_writer` holds.
    pub fn opened(with_writer: bool) -> (handle: SharedHandle)
        ensures
            handle@ == (HandleView { readers: 1, writers: if with_writer { 1nat } else { 0nat } }),
    {
        SharedHandle { readers: 1, writers: if with_writer { 1 } else { 0 } }
    }

    /// Whether the native resource is open.
    pub fn is_open(&self) -> (open: bool)
        ensures
            open == self@.native_open(),
    {
        self.readers > 0 || self.writers > 0
    }

    /// Whether the event bridge is attached.
    pub fn is_bridge_attached(&self) -> (attached: bool)
        ensures
            attached == self@.bridge_attached(),
    {
        self.readers > 0
    }

    /// The number of readers that reference the device.
    pub fn readers(&self) -> (readers: usize)
        ensures
            readers == self@.readers,
    {
        self.readers
    }

    /// The number of writers that reference the device.
    pub fn writers(&self) -> (writers: usize)
        ensures
            writers == self@.writers,
    {
        self.writers
    }

    /// Counts one more logical handle of the given kind, and returns whether
    /// it did. A writer is counted while the native resource is open, a
    /// reader while the event bridge is attached, and neither once its
    /// counter is at its limit.
    pub fn retain(&mut self, kind: HandleKind) -> (retained: bool)
        ensures
            retained == match kind {
                HandleKind::Reader => old(self)@.bridge_attached() && old(self)@.readers
                    < usize::MAX,
                HandleKind::Writer => old(self)@.native_open() && old(self)@.writers
                    < usize::MAX,
            },
            retained ==> final(self)@ == old(self)@.retained(kind),
            !retained ==> final(self)@ == old(self)@,
    {
        match kind {
            HandleKind::Reader => {
                if self.readers > 0 && self.readers < usize::MAX {
                    self.readers = self.readers + 1;
                    true
                } else {
                    false
                }
            },
            HandleKind::Writer => {
                if (self.readers > 0 || self.writers > 0) && self.writers < usize::MAX {
                    self.writers = self.writers + 1;
                    true
                } else {
                    false
                }
            },
        }
    }

    /// Releases one logical handle of the given kind, and returns what the
    /// backend has to do then.
    pub fn release(&mut self, kind: HandleKind) -> (teardown: Teardown)
        ensures
            (final(self)@, teardown) == old(self)@.released(kind),
    {
        match kind {
            HandleKind::Reader => {
                if self.readers == 0 {
                    return Teardown::Nothing;
                }
                self.readers = self.readers - 1;
                if self.readers > 0 {
                    Teardown::Nothing
                } else if self.writers > 0 {
                    Teardown::DetachBridge
                } else {
                    Teardown::DetachBridgeThenCloseNative
                }
            },
            HandleKind::Writer => {
                if self.writers == 0 {
                    return Teardown::Nothing;
                }
                self.writers = self.writers - 1;
                if self.readers > 0 || self.writers > 0 {
                    Teardown::Nothing
                } else {
                    Teardown::CloseNative
                }
            },
        }
    }
}

/// No sequence of releases asks for more than one native close, and none
/// asks for a close of a device that is closed already.
pub proof fn lemma_closes_at_most_once(handle: HandleView, kinds: Seq<HandleKind>)
    ensures
        handle.released_all(kinds).1 <= 1,
        !handle.native_open() ==> handle.released_all(kinds).1 == 0 && handle.released_all(
            kinds,
        ).0 == handle,
    decreases kinds.len(),
{
    if kinds.len() > 0 {
        let (next, teardown) = handle.released(kinds[0]);
        lemma_closes_at_most_once(next, kinds.drop_first());
    }
}

/// As long as a reader or a writer is not released, no native close is asked
/// for and the device stays open.
pub proof fn lemma_held_handle_keeps_open(handle: HandleView, kinds: Seq<HandleKind>)
    requires
        count_of(kinds, HandleKind::Reader) < handle.readers || count_of(
            kinds,
            HandleKind::Writer,
        ) < handle.writers,
    ensures
        handle.released_all(kinds).1 == 0,
        handle.released_all(kinds).0.native_open(),
    decreases kinds.len(),
{
    if kinds.len() > 0 {
        let (next, teardown) = handle.released(kinds[0]);
        lemma_held_handle_keeps_open(next, kinds.drop_first());
    }
}

/// Releasing every reader and every writer of an open device, in whatever
/// order, asks for exactly one native close, and leaves a handle without
/// readers and writers.
pub proof fn lemma_last_release_closes_once(handle: HandleView, kinds: Seq<HandleKind>)
    requires
        handle.native_open(),
        count_of(kinds, HandleKind::Reader) >= handle.readers,
        count_of(kinds, HandleKind::Writer) >= handle.writers,
    ensures
        handle.released_all(kinds).1 == 1,
        handle.released_all(kinds).0 == (HandleView { readers: 0, writers: 0 }),
    decreases kinds.len(),
{
    if kinds.len() > 0 {
        let (next, teardown) = handle.released(kinds[0]);
        if next.native_open() {
            lemma_last_release_closes_once(next, kinds.drop_first());
        } else {
            lemma_closes_at_most_once(next, kinds.drop_first());
        }
    }
}

/// A reader and a writer that were opened together are released in either
/// order with exactly one native close, which the second release asks for.
/// The bridge is detached when the reader is released, and so not after the
/// close.
pub proof fn lemma_reader_and_writer_close_once(first: HandleKind, second: HandleKind)
    requires
        first != second,
    ensures
        ({
            let pair = HandleView { readers: 1, writers: 1 };
            let (between, early) = pair.released(first);
            let (after, late) = between.released(second);
            &&& closes(early) == 0
            &&& closes(late) == 1
            &&& detaches(early) + detaches(late) == 1
            &&& after == (HandleView { readers: 0, writers: 0 })
            &&& pair.released_all(seq![first, second]).1 == 1
        }),
{
    let pair = HandleView { readers: 1, writers: 1 };
    let kinds = seq![first, second];
    assert(kinds.drop_first() =~= seq![second]);
    assert(seq![second].drop_first() =~= Seq::<HandleKind>::empty());
    reveal_with_fuel(HandleView::released_all, 3);
}

} // verus!
