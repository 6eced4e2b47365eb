//! Surfaces, their double-buffered buffer assignment, and the registry of
//! committed buffers.

use vstd::prelude::*;
use std::collections::HashMap;

verus! {

broadcast use vstd::std_specs::hash::group_hash_axioms;

/// A block of pixel memory that a client offers: its identity and shape.
#[derive(Clone, Copy, Debug, PartialEq, Eq, Structural)]
pub struct Buffer {
    pub id: u64,
    pub width: i32,
    pub height: i32,
    pub stride: i32,
}

/// What a client asks of a surface's buffer with its next commit.
#[derive(Clone, Copy, Debug, PartialEq, Eq, Structural)]
pub enum BufferAssignment {
    NewBuffer(Buffer),
    Removed,
}

/// The committed buffer state of a surface.
#[derive(Clone, Copy, Debug, PartialEq, Eq, Structural)]
pub enum CommitState {
    Uncommitted,
    HasBuffer(Buffer),
    BufferRemoved,
}

/// A frame-completion notice: the callback to fire and the time to give it.
#[derive(Clone, Copy, Debug, PartialEq, Eq, Structural)]
pub struct FrameDone {
    pub callback: u64,
    pub time: u32,
}

/// A client drawable.
///
/// `pending` is written by the client at any time; `current` changes only
/// in [`Surface::commit`].
#[derive(Debug)]
pub struct Surface {
    pub id: u64,
    pub pending: Option<BufferAssignment>,
    pub current: CommitState,
    pub buffer_scale: i32,
    pub frame_callbacks: Vec<u64>,
}

/// The committed buffer of every surface that has one, by surface identity.
#[derive(Debug)]
pub struct SurfaceRegistry {
    pub buffers: HashMap<u64, Buffer>,
}

/// The committed state that follows `current` when `pending` is committed.
pub open spec fn committed(current: CommitState, pending: Option<BufferAssignment>) -> CommitState {
    match pending {
        Some(BufferAssignment::NewBuffer(b)) => CommitState::HasBuffer(b),
        Some(BufferAssignment::Removed) => CommitState::BufferRemoved,
        None => current,
    }
}

/// The registry's map after a commit of `pending` on `surface`.
pub open spec fn registered(
    buffers: Map<u64, Buffer>,
    surface: u64,
    pending: Option<BufferAssignment>,
) -> Map<u64, Buffer> {
    match pending {
        Some(BufferAssignment::NewBuffer(b)) => buffers.insert(surface, b),
        Some(BufferAssignment::Removed) => buffers.remove(surface),
        None => buffers,
    }
}

/// The notices for the callbacks `callbacks`, in order, all at `time`.
pub open spec fn notices(callbacks: Seq<u64>, time: u32) -> Seq<FrameDone> {
    Seq::new(callbacks.len(), |i: int| FrameDone { callback: callbacks[i], time })
}

/// The notices for every callback of the first `upto` surfaces of `tree`,
/// surface by surface.
pub open spec fn tree_notices(tree: Seq<Surface>, time: u32, upto: int) -> Seq<FrameDone>
    decreases upto,
{
    if upto <= 0 {
        Seq::empty()
    } else {
        tree_notices(tree, time, upto - 1) + notices(tree[upto - 1].frame_callbacks@, time)
    }
}

impl Surface {
    /// A surface that nothing was committed to yet, at scale 1.
    pub fn new(id: u64) -> (s: Surface)
        ensures
            s.id == id,
            s.pending.is_none(),
            s.current == CommitState::Uncommitted,
            s.buffer_scale == 1,
            s.frame_callbacks@ == Seq::<u64>::empty(),
    {
        Surface {
            id,
            pending: None,
            current: CommitState::Uncommitted,
            buffer_scale: 1,
            frame_callbacks: Vec::new(),
        }
    }

    /// Records the client's wish for the next commit: a new buffer, or with
    /// `None` the removal of the buffer. The committed state stays.
    pub fn attach(&mut self, buffer: Option<Buffer>)
        ensures
            final(self).pending == Some(
                match buffer {
                    Some(b) => BufferAssignment::NewBuffer(b),
                    None => BufferAssignment::Removed,
                },
            ),
            final(self).current == old(self).current,
            final(self).id == old(self).id,
            final(self).buffer_scale == old(self).buffer_scale,
            final(self).frame_callbacks == old(self).frame_callbacks,
    {
        self.pending = Some(
            match buffer {
                Some(b) => BufferAssignment::NewBuffer(b),
                None => BufferAssignment::Removed,
            },
        );
    }

    /// Adds a frame-completion callback to fire after the next frame.
    pub fn add_frame_callback(&mut self, callback: u64)
        ensures
            final(self).frame_callbacks@ == old(self).frame_callbacks@.push(callback),
            final(self).pending == old(self).pending,
            final(self).current == old(self).current,
            final(self).id == old(self).id,
            final(self).buffer_scale == old(self).buffer_scale,
    {
        self.frame_callbacks.push(callback);
    }

    /// Promotes the pending assignment to the committed state and returns
    /// it; with nothing pending the committed state stays as it is.
    pub fn commit(&mut self) -> (change: Option<BufferAssignment>)
        ensures
            change == old(self).pending,
            final(self).pending.is_none(),
            final(self).current == committed(old(self).current, old(self).pending),
            final(self).id == old(self).id,
            final(self).buffer_scale == old(self).buffer_scale,
            final(self).frame_callbacks == old(self).frame_callbacks,
    {
        let change = self.pending;
        self.pending = None;
        match change {
            Some(BufferAssignment::NewBuffer(b)) => {
                self.current = CommitState::HasBuffer(b);
            },
            Some(BufferAssignment::Removed) => {
                self.current = CommitState::BufferRemoved;
            },
            None => {},
        }
        change
    }

    /// Empties the surface's callbacks into `out` as notices at `time`.
    pub fn send_frames(&mut self, time: u32, out: &mut Vec<FrameDone>)
        ensures
            final(out)@ == old(out)@ + notices(old(self).frame_callbacks@, time),
            final(self).frame_callbacks@ == Seq::<u64>::empty(),
            final(self).pending == old(self).pending,
            final(self).current == old(self).current,
            final(self).id == old(self).id,
            final(self).buffer_scale == old(self).buffer_scale,
    {
        let mut taken: Vec<u64> = Vec::new();
        std::mem::swap(&mut self.frame_callbacks, &mut taken);
        let mut i: usize = 0;
        while i < taken.len()
            invariant
                i <= taken.len(),
                taken@ == old(self).frame_callbacks@,
                out@ == old(out)@ + notices(taken@, time).subrange(0, i as int),
            decreases taken.len() - i,
        {
            out.push(FrameDone { callback: taken[i], time });
            assert(out@ =~= old(out)@ + notices(taken@, time).subrange(0, i + 1));
            i += 1;
        }
        assert(out@ =~= old(out)@ + notices(taken@, time));
    }
}

/// Fires the frame-completion callbacks of a surface and its sub-surfaces:
/// `tree` holds them in traversal order, and the notices come out in that
/// order, each at `time`. Every surface is left without callbacks and
/// otherwise as it was.
pub fn send_frames_surface_tree(tree: &mut Vec<Surface>, time: u32) -> (done: Vec<FrameDone>)
    ensures
        done@ == tree_notices(old(tree)@, time, old(tree)@.len() as int),
        final(tree)@.len() == old(tree)@.len(),
        forall|i: int|
            0 <= i < old(tree)@.len() ==> {
                &&& (#[trigger] final(tree)@[i]).frame_callbacks@ == Seq::<u64>::empty()
                &&& final(tree)@[i].id == old(tree)@[i].id
                &&& final(tree)@[i].pending == old(tree)@[i].pending
                &&& final(tree)@[i].current == old(tree)@[i].current
                &&& final(tree)@[i].buffer_scale == old(tree)@[i].buffer_scale
            },
{
    let mut done: Vec<FrameDone> = Vec::new();
    let mut i: usize = 0;
    while i < tree.len()
        invariant
            i <= tree.len(),
            tree@.len() == old(tree)@.len(),
            done@ == tree_notices(old(tree)@, time, i as int),
            forall|j: int| i <= j < tree@.len() ==> tree@[j] == old(tree)@[j],
            forall|j: int|
                0 <= j < i ==> {
                    &&& (#[trigger] tree@[j]).frame_callbacks@ == Seq::<u64>::empty()
                    &&& tree@[j].id == old(tree)@[j].id
                    &&& tree@[j].pending == old(tree)@[j].pending
                    &&& tree@[j].current == old(tree)@[j].current
                    &&& tree@[j].buffer_scale == old(tree)@[j].buffer_scale
                },
        decreases tree.len() - i,
    {
        tree[i].send_frames(time, &mut done);
        i += 1;
    }
    done
}

impl View for SurfaceRegistry {
    type V = Map<u64, Buffer>;

    open spec fn view(&self) -> Map<u64, Buffer> {
        self.buffers@
    }
}

impl SurfaceRegistry {
    /// A registry with no committed buffer.
    pub fn new() -> (r: SurfaceRegistry)
        ensures
            r@ == Map::<u64, Buffer>::empty(),
    {
        SurfaceRegistry { buffers: HashMap::new() }
    }

    /// Commits `surface` and brings the registry up to date: a new buffer
    /// is recorded for the surface, a removal forgets its buffer, and a
    /// commit with nothing pending leaves the registry as it is.
    pub fn on_commit(&mut self, surface: &mut Surface) -> (change: Option<BufferAssignment>)
        ensures
            change == old(surface).pending,
            final(self)@ == registered(old(self)@, old(surface).id, old(surface).pending),
            final(surface).pending.is_none(),
            final(surface).current == committed(old(surface).current, old(surface).pending),
            final(surface).id == old(surface).id,
            final(surface).buffer_scale == old(surface).buffer_scale,
            final(surface).frame_callbacks == old(surface).frame_callbacks,
    {
        let change = surface.commit();
        match change {
            Some(BufferAssignment::NewBuffer(buffer)) => {
                self.buffers.insert(surface.id, buffer);
            },
            Some(BufferAssignment::Removed) => {
                self.buffers.remove(&surface.id);
            },
            None => {},
        }
        change
    }

    /// The committed buffer of `surface`, if it has one.
    pub fn buffer_for(&self, surface: u64) -> (buffer: Option<Buffer>)
        ensures
            buffer == (if self@.contains_key(surface) {
                Some(self@[surface])
            } else {
                None
            }),
    {
        match self.buffers.get(&surface) {
            Some(b) => Some(*b),
            None => None,
        }
    }

    /// Forgets the buffer of a surface that is gone.
    pub fn forget(&mut self, surface: u64)
        ensures
            final(self)@ == old(self)@.remove(surface),
    {
        self.buffers.remove(&surface);
    }
}

/// A commit with nothing pending changes neither the registry nor the
/// surface's committed state, and a second commit right after any commit is
/// such a commit.
pub proof fn lemma_commit_unchanged(
    buffers: Map<u64, Buffer>,
    surface: u64,
    current: CommitState,
    pending: Option<BufferAssignment>,
)
    ensures
        registered(buffers, surface, None) == buffers,
        committed(current, None) == current,
        registered(registered(buffers, surface, pending), surface, None) == registered(
            buffers,
            surface,
            pending,
        ),
{
}

/// After a commit the registry holds a buffer for the surface exactly when
/// the surface's committed state holds one, and it is the same buffer,
/// provided the two agreed before.
pub proof fn lemma_commit_agrees(
    buffers: Map<u64, Buffer>,
    surface: u64,
    current: CommitState,
    pending: Option<BufferAssignment>,
)
    requires
        agrees(buffers, surface, current),
    ensures
        agrees(registered(buffers, surface, pending), surface, committed(current, pending)),
{
}

/// The registry's entry for `surface` says what its committed state says.
pub open spec fn agrees(buffers: Map<u64, Buffer>, surface: u64, current: CommitState) -> bool {
    match current {
        CommitState::HasBuffer(b) => buffers.contains_key(surface) && buffers[surface] == b,
        _ => !buffers.contains_key(surface),
    }
}

} // verus!
