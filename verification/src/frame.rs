use vstd::prelude::*;

verus! {

/// How many frames the CPU may record ahead of the GPU.
pub const MAX_FRAMES_IN_FLIGHT: usize = 2;

/// `VK_ERROR_OUT_OF_DATE_KHR`: the swapchain no longer matches the surface.
pub const ERROR_OUT_OF_DATE: i32 = -1000001004;

/// Per-frame synchronisation objects, by raw Vulkan handle, and the frame
/// slot that the next frame uses.
#[derive(Debug)]
pub struct SyncContext {
    pub image_available_semaphores: Vec<u64>,
    pub render_finished_semaphores: Vec<u64>,
    pub in_flight_fences: Vec<u64>,
    pub command_pool: u64,
    pub command_buffers: Vec<u64>,
    pub current_frame: usize,
}

/// A frame being recorded: the swapchain image it draws to and the frame slot
/// whose synchronisation objects it uses.
#[derive(Debug, Clone, Copy, PartialEq, Eq, Structural)]
pub struct ActiveFrame {
    pub image_index: u32,
    pub frame_index: usize,
}

/// The objects to wait on and record with when a frame begins.
#[derive(Debug, Clone, Copy, PartialEq, Eq, Structural)]
pub struct FrameBegin {
    pub frame_index: usize,
    pub in_flight_fence: u64,
    pub image_available_semaphore: u64,
    pub command_buffer: u64,
}

/// The objects a finished frame is submitted and presented with.
#[derive(Debug, Clone, Copy, PartialEq, Eq, Structural)]
pub struct FrameSubmit {
    pub command_buffer: u64,
    pub wait_semaphore: u64,
    pub signal_semaphore: u64,
    pub in_flight_fence: u64,
    pub image_index: u32,
}

/// What acquiring a swapchain image came to.
#[derive(Debug, Clone, Copy, PartialEq, Eq, Structural)]
pub enum AcquireOutcome {
    /// Record the frame.
    Ready(ActiveFrame),
    /// The swapchain must be rebuilt; skip this frame.
    OutOfDate,
    /// Acquisition failed with this `VkResult`.
    Failed(i32),
}

/// The frame slot that follows `f`.
pub open spec fn next_frame(f: int) -> int {
    (f + 1) % (MAX_FRAMES_IN_FLIGHT as int)
}

/// The frame slot after `k` finished frames, starting from slot `f`.
pub open spec fn frame_after(f: int, k: nat) -> int
    decreases k,
{
    if k == 0 {
        f
    } else {
        next_frame(frame_after(f, (k - 1) as nat))
    }
}

impl SyncContext {
    /// The objects the current frame slot begins a frame with.
    pub open spec fn begin_spec(&self) -> FrameBegin {
        FrameBegin {
            frame_index: self.current_frame,
            in_flight_fence: self.in_flight_fences@[self.current_frame as int],
            image_available_semaphore: self.image_available_semaphores@[self.current_frame as int],
            command_buffer: self.command_buffers@[self.current_frame as int],
        }
    }

    /// The objects `frame` is submitted and presented with.
    pub open spec fn submit_spec(&self, frame: ActiveFrame) -> FrameSubmit {
        FrameSubmit {
            command_buffer: self.command_buffers@[frame.frame_index as int],
            wait_semaphore: self.image_available_semaphores@[frame.frame_index as int],
            signal_semaphore: self.render_finished_semaphores@[frame.image_index as int],
            in_flight_fence: self.in_flight_fences@[frame.frame_index as int],
            image_index: frame.image_index,
        }
    }

    /// One image-available semaphore, fence and command buffer per frame slot,
    /// one render-finished semaphore per swapchain image, and a slot in range.
    pub open spec fn well_formed(&self) -> bool {
        &&& self.image_available_semaphores@.len() == MAX_FRAMES_IN_FLIGHT
        &&& self.in_flight_fences@.len() == MAX_FRAMES_IN_FLIGHT
        &&& self.command_buffers@.len() == MAX_FRAMES_IN_FLIGHT
        &&& self.current_frame < MAX_FRAMES_IN_FLIGHT
    }

    /// Gathers the created objects; the first frame uses slot 0.
    pub fn new(
        image_available_semaphores: Vec<u64>,
        render_finished_semaphores: Vec<u64>,
        in_flight_fences: Vec<u64>,
        command_pool: u64,
        command_buffers: Vec<u64>,
    ) -> (res: SyncContext)
        requires
            image_available_semaphores@.len() == MAX_FRAMES_IN_FLIGHT,
            in_flight_fences@.len() == MAX_FRAMES_IN_FLIGHT,
            command_buffers@.len() == MAX_FRAMES_IN_FLIGHT,
        ensures
            res.well_formed(),
            res.current_frame == 0,
            res.image_available_semaphores == image_available_semaphores,
            res.render_finished_semaphores == render_finished_semaphores,
            res.in_flight_fences == in_flight_fences,
            res.command_pool == command_pool,
            res.command_buffers == command_buffers,
    {
        SyncContext {
            image_available_semaphores,
            render_finished_semaphores,
            in_flight_fences,
            command_pool,
            command_buffers,
            current_frame: 0,
        }
    }

    /// The fence to wait for, the semaphore to acquire with and the command
    /// buffer to record into, for the current frame slot.
    pub fn begin_frame(&self) -> (res: FrameBegin)
        requires
            self.well_formed(),
        ensures
            res == self.begin_spec(),
    {
        let f = self.current_frame;
        FrameBegin {
            frame_index: f,
            in_flight_fence: self.in_flight_fences[f],
            image_available_semaphore: self.image_available_semaphores[f],
            command_buffer: self.command_buffers[f],
        }
    }

    /// What to do once image acquisition returned `acquired`: record into the
    /// acquired image, skip the frame when the swapchain is out of date, or fail.
    pub fn on_acquire(&self, acquired: Result<u32, i32>) -> (res: AcquireOutcome)
        ensures
            match acquired {
                Ok(i) => res == AcquireOutcome::Ready(ActiveFrame { image_index: i, frame_index: self.current_frame }),
                Err(code) => if code == ERROR_OUT_OF_DATE {
                    res == AcquireOutcome::OutOfDate
                } else {
                    res == AcquireOutcome::Failed(code)
                },
            },
    {
        match acquired {
            Ok(i) => AcquireOutcome::Ready(ActiveFrame { image_index: i, frame_index: self.current_frame }),
            Err(code) => if code == ERROR_OUT_OF_DATE {
                AcquireOutcome::OutOfDate
            } else {
                AcquireOutcome::Failed(code)
            },
        }
    }

    /// The objects to submit and present `frame` with.
    pub fn frame_submit(&self, frame: &ActiveFrame) -> (res: FrameSubmit)
        requires
            self.well_formed(),
            frame.frame_index < MAX_FRAMES_IN_FLIGHT,
            (frame.image_index as int) < self.render_finished_semaphores@.len(),
        ensures
            res == self.submit_spec(*frame),
    {
        FrameSubmit {
            command_buffer: self.command_buffers[frame.frame_index],
            wait_semaphore: self.image_available_semaphores[frame.frame_index],
            signal_semaphore: self.render_finished_semaphores[frame.image_index as usize],
            in_flight_fence: self.in_flight_fences[frame.frame_index],
            image_index: frame.image_index,
        }
    }

    /// `frame` was submitted: the next frame uses the following slot.
    pub fn end_frame(&mut self, frame: &ActiveFrame)
        requires
            old(self).well_formed(),
            frame.frame_index < MAX_FRAMES_IN_FLIGHT,
        ensures
            final(self).well_formed(),
            final(self).current_frame == next_frame(frame.frame_index as int),
            final(self).image_available_semaphores == old(self).image_available_semaphores,
            final(self).render_finished_semaphores == old(self).render_finished_semaphores,
            final(self).in_flight_fences == old(self).in_flight_fences,
            final(self).command_pool == old(self).command_pool,
            final(self).command_buffers == old(self).command_buffers,
    {
        self.current_frame = (frame.frame_index + 1) % MAX_FRAMES_IN_FLIGHT;
    }
}

/// After `k` frames the slot is the start slot advanced by `k`, modulo the
/// number of frames in flight: the slots are used in turn.
pub proof fn lemma_frames_rotate(f: int, k: nat)
    requires
        0 <= f < MAX_FRAMES_IN_FLIGHT,
    ensures
        frame_after(f, k) == (f + k) % (MAX_FRAMES_IN_FLIGHT as int),
        0 <= frame_after(f, k) < MAX_FRAMES_IN_FLIGHT,
    decreases k,
{
    if k > 0 {
        lemma_frames_rotate(f, (k - 1) as nat);
    }
}

/// A frame that began in the current slot is submitted with the command
/// buffer it was recorded into, signals the fence its slot waited on, and waits
/// on the semaphore its image was acquired with.
pub proof fn lemma_frame_uses_its_slot(s: SyncContext, image_index: u32)
    requires
        s.well_formed(),
        (image_index as int) < s.render_finished_semaphores@.len(),
    ensures
        ({
            let f = ActiveFrame { image_index, frame_index: s.current_frame };
            &&& s.submit_spec(f).command_buffer == s.begin_spec().command_buffer
            &&& s.submit_spec(f).in_flight_fence == s.begin_spec().in_flight_fence
            &&& s.submit_spec(f).wait_semaphore == s.begin_spec().image_available_semaphore
            &&& s.submit_spec(f).signal_semaphore == s.render_finished_semaphores@[image_index as int]
        }),
{
}

/// Two consecutive frames never share a frame slot, so a frame never reuses the
/// fence of the frame before it.
pub proof fn lemma_consecutive_frames_differ(f: int)
    requires
        0 <= f < MAX_FRAMES_IN_FLIGHT,
    ensures
        next_frame(f) != f,
        next_frame(next_frame(f)) == f,
{
}

/// Each slot begins with its own command buffer, fence and image-available
/// semaphore: two states that differ only in the slot in use (as before and
/// after `end_frame`) begin with different objects whenever the per-slot
/// objects are distinct.
pub proof fn lemma_slots_begin_with_their_own_objects(s: SyncContext, t: SyncContext)
    requires
        s.well_formed(),
        t.well_formed(),
        t.command_buffers == s.command_buffers,
        t.in_flight_fences == s.in_flight_fences,
        t.image_available_semaphores == s.image_available_semaphores,
        t.current_frame != s.current_frame,
    ensures
        s.begin_spec().command_buffer == s.command_buffers@[s.current_frame as int],
        s.begin_spec().in_flight_fence == s.in_flight_fences@[s.current_frame as int],
        s.begin_spec().image_available_semaphore == s.image_available_semaphores@[s.current_frame as int],
        s.command_buffers@[0] != s.command_buffers@[1]
            ==> s.begin_spec().command_buffer != t.begin_spec().command_buffer,
        s.in_flight_fences@[0] != s.in_flight_fences@[1]
            ==> s.begin_spec().in_flight_fence != t.begin_spec().in_flight_fence,
        s.image_available_semaphores@[0] != s.image_available_semaphores@[1]
            ==> s.begin_spec().image_available_semaphore != t.begin_spec().image_available_semaphore,
{
}

/// Frames of different slots are submitted with different command buffers,
/// fences and wait semaphores, and frames for different images signal
/// different semaphores, whenever those objects are distinct.
pub proof fn lemma_frames_submit_their_own_objects(s: SyncContext, f: ActiveFrame, g: ActiveFrame)
    requires
        s.well_formed(),
        f.frame_index < MAX_FRAMES_IN_FLIGHT,
        g.frame_index < MAX_FRAMES_IN_FLIGHT,
        (f.image_index as int) < s.render_finished_semaphores@.len(),
        (g.image_index as int) < s.render_finished_semaphores@.len(),
    ensures
        s.submit_spec(f).command_buffer == s.command_buffers@[f.frame_index as int],
        s.submit_spec(f).in_flight_fence == s.in_flight_fences@[f.frame_index as int],
        s.submit_spec(f).wait_semaphore == s.image_available_semaphores@[f.frame_index as int],
        s.submit_spec(f).signal_semaphore == s.render_finished_semaphores@[f.image_index as int],
        f.frame_index != g.frame_index && s.command_buffers@[0] != s.command_buffers@[1]
            ==> s.submit_spec(f).command_buffer != s.submit_spec(g).command_buffer,
        f.frame_index != g.frame_index && s.in_flight_fences@[0] != s.in_flight_fences@[1]
            ==> s.submit_spec(f).in_flight_fence != s.submit_spec(g).in_flight_fence,
        f.frame_index != g.frame_index && s.image_available_semaphores@[0] != s.image_available_semaphores@[1]
            ==> s.submit_spec(f).wait_semaphore != s.submit_spec(g).wait_semaphore,
        f.image_index != g.image_index
            && s.render_finished_semaphores@[f.image_index as int] != s.render_finished_semaphores@[g.image_index as int]
            ==> s.submit_spec(f).signal_semaphore != s.submit_spec(g).signal_semaphore,
{
}

} // verus!
