use crate::mesh::ObjectData;
use crate::shapes::{shape_mesh, ShapeType};
use vstd::prelude::*;

verus! {

/// Number of frames that may be in flight on the GPU at once.
pub const MAX_FRAMES_INFLIGHT: usize = 2;

/// One queued draw: the mesh it draws and the per-instance parameters
/// (transform and color) that the recording side pushes as constants.
#[derive(Clone, Debug)]
pub struct PooledDraw<T> {
    pub object_index: usize,
    pub params: T,
}

/// One indexed draw call: a contiguous range of the shared index buffer.
#[derive(Clone, Copy, Debug, PartialEq, Eq, Structural)]
pub struct DrawCommand {
    pub index_count: u32,
    pub first_index: u32,
}

/// The per-slot resources of a frame.
#[derive(Clone, Copy, Debug, PartialEq, Eq, Structural)]
pub enum SlotResource {
    InflightFence,
    AcquireSemaphore,
    ReleaseSemaphore,
    DrawCommandBuffer,
    DescriptorSet,
    UniformBuffer,
    FrameBuffer,
}

#[derive(Clone, Copy, Debug, PartialEq, Eq, Structural)]
pub enum FrameError {
    /// A slot- or image-indexed resource list is shorter than the index.
    IndexOutOfBounds(SlotResource),
    /// A queued draw names a mesh that the mesh table does not hold.
    UnknownMesh(usize),
    /// A mesh's index range does not fit a 32-bit draw call.
    RangeTooLarge(usize),
}

/// Looks up the resource of a frame slot (or swapchain image) by index and
/// reports a missing one as an error.
pub fn slot_resource<R>(v: &Vec<R>, index: usize, kind: SlotResource) -> (r: Result<&R, FrameError>)
    ensures
        index < v@.len() ==> r == Ok::<&R, FrameError>(&v@[index as int]),
        index >= v@.len() ==> r == Err::<&R, FrameError>(FrameError::IndexOutOfBounds(kind)),
{
    if index < v.len() {
        Ok(&v[index])
    } else {
        Err(FrameError::IndexOutOfBounds(kind))
    }
}

/// A queued mesh index can be drawn: the table holds it and its range fits a draw call.
pub open spec fn drawable(meshes: Seq<ObjectData>, k: usize) -> bool {
    &&& k < meshes.len()
    &&& meshes[k as int].index_count <= u32::MAX
    &&& meshes[k as int].index_offset <= u32::MAX
}

/// The error reported for a mesh index that cannot be drawn.
pub open spec fn first_failure(meshes: Seq<ObjectData>, k: usize) -> FrameError {
    if k >= meshes.len() {
        FrameError::UnknownMesh(k)
    } else {
        FrameError::RangeTooLarge(k)
    }
}

/// The draw call of one queued mesh index.
pub open spec fn command_of(m: ObjectData) -> DrawCommand {
    DrawCommand { index_count: m.index_count as u32, first_index: m.index_offset as u32 }
}

/// The state that `draw_request` carries from one frame to the next: the
/// active frame slot and the pool of draws queued for the coming frame.
pub struct FrameCycle<T> {
    slots: SlotRotation,
    draw_pool: Vec<PooledDraw<T>>,
}

/// The active frame slot and the number of frames submitted so far.
struct SlotRotation {
    current_frame: usize,
    submitted: Ghost<nat>,
}

impl SlotRotation {
    /// The slot rotates with every submitted frame.
    #[verifier::type_invariant]
    spec fn wf(&self) -> bool {
        self.current_frame == self.submitted@ % (MAX_FRAMES_INFLIGHT as nat)
    }

    fn current(&self) -> (r: usize)
        ensures
            r == self.current_frame,
            r == self.submitted@ % (MAX_FRAMES_INFLIGHT as nat),
    {
        proof {
            use_type_invariant(self);
        }
        self.current_frame
    }

    fn advanced(&self) -> (r: SlotRotation)
        ensures
            r.submitted@ == self.submitted@ + 1,
            r.current_frame == (self.current_frame + 1) % (MAX_FRAMES_INFLIGHT as int),
    {
        proof {
            use_type_invariant(self);
        }
        SlotRotation {
            current_frame: (self.current_frame + 1) % MAX_FRAMES_INFLIGHT,
            submitted: Ghost(self.submitted@ + 1),
        }
    }
}

impl<T> FrameCycle<T> {
    pub closed spec fn spec_current_frame(&self) -> usize {
        self.slots.current_frame
    }

    /// How many frames have been submitted since the cycle was created.
    pub closed spec fn submitted(&self) -> nat {
        self.slots.submitted@
    }

    pub closed spec fn pool(&self) -> Seq<PooledDraw<T>> {
        self.draw_pool@
    }

    pub fn new() -> (r: Self)
        ensures
            r.submitted() == 0,
            r.spec_current_frame() == 0,
            r.pool().len() == 0,
    {
        FrameCycle {
            slots: SlotRotation { current_frame: 0, submitted: Ghost(0) },
            draw_pool: Vec::new(),
        }
    }

    /// The active frame slot: after `k` submitted frames it is slot
    /// `k mod MAX_FRAMES_INFLIGHT`.
    pub fn current_frame(&self) -> (r: usize)
        ensures
            r == self.spec_current_frame(),
            r == self.submitted() % (MAX_FRAMES_INFLIGHT as nat),
            r < MAX_FRAMES_INFLIGHT,
    {
        self.slots.current()
    }

    pub fn pool_len(&self) -> (r: usize)
        ensures
            r == self.pool().len(),
    {
        self.draw_pool.len()
    }

    pub fn pooled(&self) -> (r: &Vec<PooledDraw<T>>)
        ensures
            r@ == self.pool(),
    {
        &self.draw_pool
    }

    /// Queues one draw behind those already queued.
    pub fn push(&mut self, object_index: usize, params: T)
        ensures
            final(self).pool() == old(self).pool().push(PooledDraw { object_index, params }),
            final(self).spec_current_frame() == old(self).spec_current_frame(),
            final(self).submitted() == old(self).submitted(),
    {
        self.draw_pool.push(PooledDraw { object_index, params });
    }

    /// Queues one built-in shape.
    pub fn shape(&mut self, shape: ShapeType, params: T)
        ensures
            final(self).pool() == old(self).pool().push(PooledDraw { object_index: shape_mesh(shape), params }),
            final(self).spec_current_frame() == old(self).spec_current_frame(),
            final(self).submitted() == old(self).submitted(),
    {
        let object_index = shape.object_index();
        self.draw_pool.push(PooledDraw { object_index, params });
    }

    /// Queues draws in their order, behind those already queued.
    pub fn extend(&mut self, draws: Vec<PooledDraw<T>>)
        ensures
            final(self).pool() == old(self).pool() + draws@,
            final(self).spec_current_frame() == old(self).spec_current_frame(),
            final(self).submitted() == old(self).submitted(),
    {
        let mut draws = draws;
        self.draw_pool.append(&mut draws);
    }

    /// Decides whether a frame is drawn for a window of the given size: not
    /// while the window is minimized, in which case the frame is skipped and
    /// its queued draws are dropped (nothing carries over to the next frame).
    /// Gives the frame slot to record into.
    pub fn begin_draw_request(&mut self, width: u32, height: u32) -> (r: Option<usize>)
        ensures
            (width == 0 || height == 0) ==> r.is_none() && final(self).pool().len() == 0,
            (width != 0 && height != 0) ==> r == Some(old(self).spec_current_frame())
                && final(self).pool() == old(self).pool(),
            r matches Some(slot) ==> slot == old(self).submitted() % (MAX_FRAMES_INFLIGHT as nat),
            final(self).spec_current_frame() == old(self).spec_current_frame(),
            final(self).submitted() == old(self).submitted(),
    {
        if width == 0 || height == 0 {
            self.draw_pool.clear();
            None
        } else {
            Some(self.slots.current())
        }
    }

    /// The draw calls for the queued draws, in queue order.
    pub fn draw_commands(&self, meshes: &Vec<ObjectData>) -> (r: Result<Vec<DrawCommand>, FrameError>)
        ensures
            r.is_ok() <==> (forall|i: int|
                0 <= i < self.pool().len() ==> drawable(meshes@, #[trigger] self.pool()[i].object_index)),
            r matches Ok(cmds) ==> cmds@.len() == self.pool().len() && forall|i: int|
                0 <= i < cmds@.len() ==> #[trigger] cmds@[i] == command_of(
                    meshes@[self.pool()[i].object_index as int],
                ),
            r matches Err(e) ==> exists|i: int|
                0 <= i < self.pool().len() && !drawable(meshes@, #[trigger] self.pool()[i].object_index)
                    && e == first_failure(meshes@, self.pool()[i].object_index) && forall|j: int|
                    0 <= j < i ==> drawable(meshes@, #[trigger] self.pool()[j].object_index),
    {
        let mut cmds: Vec<DrawCommand> = Vec::new();
        let mut i: usize = 0;
        while i < self.draw_pool.len()
            invariant
                i <= self.draw_pool@.len(),
                self.draw_pool@ == self.pool(),
                cmds@.len() == i,
                forall|j: int| 0 <= j < i ==> drawable(meshes@, #[trigger] self.draw_pool@[j].object_index),
                forall|j: int|
                    0 <= j < i ==> #[trigger] cmds@[j] == command_of(
                        meshes@[self.draw_pool@[j].object_index as int],
                    ),
            decreases self.draw_pool@.len() - i,
        {
            let k = self.draw_pool[i].object_index;
            if k >= meshes.len() {
                assert(!drawable(meshes@, self.pool()[i as int].object_index));
                return Err(FrameError::UnknownMesh(k));
            }
            let m = &meshes[k];
            if m.index_count > u32::MAX as usize || m.index_offset > u32::MAX as usize {
                assert(!drawable(meshes@, self.pool()[i as int].object_index));
                return Err(FrameError::RangeTooLarge(k));
            }
            cmds.push(DrawCommand { index_count: m.index_count as u32, first_index: m.index_offset as u32 });
            i = i + 1;
        }
        Ok(cmds)
    }

    /// Completes a submitted frame: the next slot becomes active and the
    /// pool is emptied for the next frame.
    pub fn end_draw_request(&mut self)
        ensures
            final(self).submitted() == old(self).submitted() + 1,
            final(self).spec_current_frame() == (old(self).spec_current_frame() + 1)
                % (MAX_FRAMES_INFLIGHT as int),
            final(self).pool().len() == 0,
    {
        self.slots = self.slots.advanced();
        self.draw_pool.clear();
    }
}

} // verus!
