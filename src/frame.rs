use vstd::prelude::*;

use vstd::arithmetic::div_mod::{
    lemma_fundamental_div_mod, lemma_fundamental_div_mod_converse, lemma_mod_bound,
};

verus! {

/// How many frames the host may submit before it waits for the oldest.
pub const MAX_FRAMES_IN_FLIGHT: usize = 2;

/// What the driver answered to a request for the next swapchain image.
#[derive(Clone, Copy, Debug, PartialEq, Eq, Structural)]
pub enum AcquireResult {
    /// The index of the image to render into.
    Acquired(u32),
    /// The swapchain no longer matches the surface.
    OutOfDate,
    /// Any other failure, with its raw result code.
    Failed(i32),
}

/// What the render loop does after an acquisition.
#[derive(Clone, Copy, Debug, PartialEq, Eq, Structural)]
pub enum AcquireStep {
    /// Render into `image_index`; first wait on the fence of `wait_for_slot`,
    /// where an earlier frame still renders into this image.
    Render { image_index: usize, wait_for_slot: Option<usize> },
    /// Drop this frame and recreate the swapchain.
    Recreate,
    /// The driver named an image the swapchain does not have.
    InvalidImage,
    /// Stop the render loop with this raw result code.
    Fatal(i32),
}

/// What the driver answered to a present request.
#[derive(Clone, Copy, Debug, PartialEq, Eq, Structural)]
pub enum PresentResult {
    Presented,
    Suboptimal,
    OutOfDate,
    Failed(i32),
}

/// What the render loop does after presenting.
#[derive(Clone, Copy, Debug, PartialEq, Eq, Structural)]
pub enum PresentStep {
    Continue,
    Recreate,
    Fatal(i32),
}

/// The frame synchronizer as a mathematical value.
pub struct FrameSyncView {
    /// The frame slot in use: whose fence is waited on and whose semaphores
    /// the frame uses.
    pub frame: usize,
    /// The number of frame slots.
    pub frames_in_flight: usize,
    /// For each swapchain image, the frame slot whose fence was recorded when
    /// the image was last submitted; `None` where none was since the swapchain
    /// was built.
    pub images_in_flight: Seq<Option<usize>>,
    /// The window was resized since the last present.
    pub resized: bool,
    /// The current slot's fence was waited on and has not been handed to a
    /// submission since.
    pub slot_fence_waited: bool,
}

impl FrameSyncView {
    pub open spec fn wf(self) -> bool {
        &&& 0 < self.frames_in_flight
        &&& self.frame < self.frames_in_flight
        &&& forall|i: int|
            0 <= i < self.images_in_flight.len() ==> (#[trigger] self.images_in_flight[i] matches Some(
                s,
            ) ==> s < self.frames_in_flight)
    }
}

/// A table of `n` images, none in flight.
pub open spec fn no_images_in_flight(n: nat) -> Seq<Option<usize>> {
    Seq::new(n, |i: int| None::<usize>)
}

/// The slot that follows `frame` among `k` slots.
pub open spec fn next_slot(frame: int, k: int) -> int {
    (frame + 1) % k
}

/// Whether a present answer that is not a failure asks for a new swapchain,
/// given the resize flag.
pub open spec fn present_needs_recreation(result: PresentResult, resized: bool) -> bool {
    !(result is Failed) && (resized || result is Suboptimal || result is OutOfDate)
}

/// The decisions of the render loop: which slot a frame uses, which fences it
/// waits on, and when the swapchain is rebuilt. The loop performs the waits,
/// acquisitions, submissions and presents, and hands back what the driver
/// answered.
pub struct FrameSync {
    frame: usize,
    frames_in_flight: usize,
    images_in_flight: Vec<Option<usize>>,
    resized: bool,
    slot_fence_waited: bool,
}

impl View for FrameSync {
    type V = FrameSyncView;

    closed spec fn view(&self) -> FrameSyncView {
        FrameSyncView {
            frame: self.frame,
            frames_in_flight: self.frames_in_flight,
            images_in_flight: self.images_in_flight@,
            resized: self.resized,
            slot_fence_waited: self.slot_fence_waited,
        }
    }
}

fn empty_table(image_count: usize) -> (r: Vec<Option<usize>>)
    ensures
        r@ == no_images_in_flight(image_count as nat),
{
    let mut v: Vec<Option<usize>> = Vec::new();
    let mut i: usize = 0;
    while i < image_count
        invariant
            i <= image_count,
            v@ =~= no_images_in_flight(i as nat),
        decreases image_count - i,
    {
        v.push(None);
        i = i + 1;
    }
    v
}

impl FrameSync {
    /// A synchronizer with `frames_in_flight` slots, starting at slot 0, for a
    /// swapchain of `image_count` images.
    pub fn new(frames_in_flight: usize, image_count: usize) -> (r: FrameSync)
        requires
            frames_in_flight > 0,
        ensures
            r@ == (FrameSyncView {
                frame: 0,
                frames_in_flight,
                images_in_flight: no_images_in_flight(image_count as nat),
                resized: false,
                slot_fence_waited: false,
            }),
            r@.wf(),
    {
        FrameSync {
            frame: 0,
            frames_in_flight,
            images_in_flight: empty_table(image_count),
            resized: false,
            slot_fence_waited: false,
        }
    }

    /// The slot of the current frame: the loop waits on this slot's fence
    /// before it acquires an image with this slot's semaphore.
    pub fn current_slot(&self) -> (r: usize)
        ensures
            r == self@.frame,
    {
        self.frame
    }

    pub fn frames_in_flight(&self) -> (r: usize)
        ensures
            r == self@.frames_in_flight,
    {
        self.frames_in_flight
    }

    /// The number of swapchain images tracked.
    pub fn image_count(&self) -> (r: usize)
        ensures
            r == self@.images_in_flight.len(),
    {
        self.images_in_flight.len()
    }

    /// The slot whose fence was recorded for `image`, if any.
    pub fn image_in_flight(&self, image: usize) -> (r: Option<usize>)
        requires
            image < self@.images_in_flight.len(),
        ensures
            r == self@.images_in_flight[image as int],
    {
        self.images_in_flight[image]
    }

    pub fn is_resized(&self) -> (r: bool)
        ensures
            r == self@.resized,
    {
        self.resized
    }

    pub fn is_slot_fence_waited(&self) -> (r: bool)
        ensures
            r == self@.slot_fence_waited,
    {
        self.slot_fence_waited
    }

    /// Records that the loop waits on the current slot's fence, and returns
    /// that slot. This bounds how far the host runs ahead of the device.
    pub fn wait_for_slot_fence(&mut self) -> (r: usize)
        requires
            old(self)@.wf(),
        ensures
            r == old(self)@.frame,
            final(self)@ == (FrameSyncView { slot_fence_waited: true, ..old(self)@ }),
            final(self)@.wf(),
    {
        self.slot_fence_waited = true;
        self.frame
    }

    /// Hands the current slot's fence to a submission: the loop resets it and
    /// submits with it, and returns that slot. A slot's fence is submitted
    /// only after a wait on it, and once per wait.
    pub fn submit(&mut self) -> (r: usize)
        requires
            old(self)@.wf(),
            old(self)@.slot_fence_waited,
        ensures
            r == old(self)@.frame,
            final(self)@ == (FrameSyncView { slot_fence_waited: false, ..old(self)@ }),
            final(self)@.wf(),
    {
        self.slot_fence_waited = false;
        self.frame
    }

    /// Records that the window was resized.
    pub fn mark_resized(&mut self)
        requires
            old(self)@.wf(),
        ensures
            final(self)@ == (FrameSyncView { resized: true, ..old(self)@ }),
            final(self)@.wf(),
    {
        self.resized = true;
    }

    /// Decides what follows an acquisition. Where an image was acquired, the
    /// current slot's fence is recorded for it, and the step names the slot
    /// whose fence was recorded before, which the loop waits on first.
    pub fn on_acquire(&mut self, result: AcquireResult) -> (r: AcquireStep)
        requires
            old(self)@.wf(),
        ensures
            final(self)@.wf(),
            match result {
                AcquireResult::Acquired(i) => if (i as int) < old(self)@.images_in_flight.len() {
                    &&& r == AcquireStep::Render {
                        image_index: i as usize,
                        wait_for_slot: old(self)@.images_in_flight[i as int],
                    }
                    &&& final(self)@ == (FrameSyncView {
                        images_in_flight: old(self)@.images_in_flight.update(
                            i as int,
                            Some(old(self)@.frame),
                        ),
                        ..old(self)@
                    })
                } else {
                    r == AcquireStep::InvalidImage && final(self)@ == old(self)@
                },
                AcquireResult::OutOfDate => r == AcquireStep::Recreate && final(self)@ == old(
                    self,
                )@,
                AcquireResult::Failed(code) => r == AcquireStep::Fatal(code) && final(self)@
                    == old(self)@,
            },
    {
        match result {
            AcquireResult::Acquired(i) => {
                let index = i as usize;
                if index < self.images_in_flight.len() {
                    let wait_for_slot = self.images_in_flight[index];
                    self.images_in_flight.set(index, Some(self.frame));
                    AcquireStep::Render { image_index: index, wait_for_slot }
                } else {
                    AcquireStep::InvalidImage
                }
            },
            AcquireResult::OutOfDate => AcquireStep::Recreate,
            AcquireResult::Failed(code) => AcquireStep::Fatal(code),
        }
    }

    /// Decides what follows a present. Any failure other than a stale or
    /// suboptimal swapchain is fatal, and changes nothing. Otherwise the
    /// swapchain is rebuilt where the driver reports it stale or suboptimal or
    /// the window was resized, the resize flag is cleared, and the loop moves
    /// on to the next slot.
    pub fn on_present(&mut self, result: PresentResult) -> (r: PresentStep)
        requires
            old(self)@.wf(),
        ensures
            final(self)@.wf(),
            result matches PresentResult::Failed(code) ==> r == PresentStep::Fatal(code)
                && final(self)@ == old(self)@,
            present_needs_recreation(result, old(self)@.resized) ==> r == PresentStep::Recreate,
            !(result is Failed) && !present_needs_recreation(result, old(self)@.resized) ==> r
                == PresentStep::Continue,
            !(r is Fatal) ==> final(self)@ == (FrameSyncView {
                frame: next_slot(
                    old(self)@.frame as int,
                    old(self)@.frames_in_flight as int,
                ) as usize,
                resized: false,
                ..old(self)@
            }),
    {
        let stale = match result {
            PresentResult::Failed(code) => {
                return PresentStep::Fatal(code);
            },
            PresentResult::Suboptimal => true,
            PresentResult::OutOfDate => true,
            PresentResult::Presented => false,
        };
        let step = if self.resized || stale {
            self.resized = false;
            PresentStep::Recreate
        } else {
            PresentStep::Continue
        };
        self.frame = (self.frame + 1) % self.frames_in_flight;
        step
    }

    /// Resets the table of images in flight for a rebuilt swapchain of
    /// `image_count` images: no image is in flight.
    pub fn on_swapchain_recreated(&mut self, image_count: usize)
        requires
            old(self)@.wf(),
        ensures
            final(self)@ == (FrameSyncView {
                images_in_flight: no_images_in_flight(image_count as nat),
                ..old(self)@
            }),
            final(self)@.wf(),
    {
        self.images_in_flight = empty_table(image_count);
    }
}

/// The slot used by the frame numbered `n` (from 0) of a run of presented
/// frames over `k` slots.
pub open spec fn slot_after(n: nat, k: int) -> int
    decreases n,
{
    if n == 0 {
        0
    } else {
        next_slot(slot_after((n - 1) as nat, k), k)
    }
}

/// How many of the first `n` frames of a run wait on the fence of slot `f`.
pub open spec fn waits_on_slot(n: nat, k: int, f: int) -> nat
    decreases n,
{
    if n == 0 {
        0
    } else {
        waits_on_slot((n - 1) as nat, k, f) + if slot_after((n - 1) as nat, k) == f {
            1nat
        } else {
            0nat
        }
    }
}

/// The frame numbered `n` uses slot `n mod k`.
pub proof fn lemma_slot_after(n: nat, k: int)
    requires
        k > 0,
    ensures
        slot_after(n, k) == n as int % k,
    decreases n,
{
    if n > 0 {
        let m = (n - 1) as int;
        lemma_slot_after((n - 1) as nat, k);
        lemma_fundamental_div_mod(m, k);
        lemma_mod_bound(m, k);
        let q = m / k;
        let r = m % k;
        assert(m == q * k + r) by (nonlinear_arith)
            requires
                m == k * q + r,
        ;
        if r + 1 < k {
            lemma_fundamental_div_mod_converse(m + 1, k, q, r + 1);
            lemma_fundamental_div_mod_converse(r + 1, k, 0, r + 1);
        } else {
            assert(m + 1 == (q + 1) * k + 0) by (nonlinear_arith)
                requires
                    m == q * k + r,
                    r + 1 == k,
            ;
            lemma_fundamental_div_mod_converse(m + 1, k, q + 1, 0);
            lemma_fundamental_div_mod_converse(k, k, 1, 0);
        }
    } else {
        lemma_fundamental_div_mod_converse(0, k, 0, 0);
    }
}

/// Over a run of `n` frames on `k` slots, the frames wait on the fence of slot
/// `f` exactly `floor((n - f - 1) / k) + 1` times.
pub proof fn lemma_waits_on_slot(n: nat, k: int, f: int)
    requires
        k > 0,
        0 <= f < k,
    ensures
        waits_on_slot(n, k, f) == (n - f - 1) / k + 1,
    decreases n,
{
    if n == 0 {
        assert(-f - 1 == -1 * k + (k - f - 1));
        lemma_fundamental_div_mod_converse(-f - 1, k, -1, k - f - 1);
    } else {
        let p = (n - 1) as nat;
        lemma_waits_on_slot(p, k, f);
        lemma_slot_after(p, k);
        let m = p - f - 1;
        lemma_fundamental_div_mod(m, k);
        lemma_mod_bound(m, k);
        let q = m / k;
        let r = m % k;
        assert(m == q * k + r) by (nonlinear_arith)
            requires
                m == k * q + r,
        ;
        if r + 1 < k {
            lemma_fundamental_div_mod_converse(m + 1, k, q, r + 1);
            if r + 1 + f >= k {
                assert(p == (q + 1) * k + (r + 1 + f - k)) by (nonlinear_arith)
                    requires
                        m == q * k + r,
                        p == m + f + 1,
                ;
                lemma_fundamental_div_mod_converse(p as int, k, q + 1, r + 1 + f - k);
            } else {
                lemma_fundamental_div_mod_converse(p as int, k, q, r + 1 + f);
            }
        } else {
            assert(m + 1 == (q + 1) * k + 0) by (nonlinear_arith)
                requires
                    m == q * k + r,
                    r + 1 == k,
            ;
            assert(p == (q + 1) * k + f) by (nonlinear_arith)
                requires
                    m + 1 == (q + 1) * k + 0,
                    p == m + f + 1,
            ;
            lemma_fundamental_div_mod_converse(m + 1, k, q + 1, 0);
            lemma_fundamental_div_mod_converse(p as int, k, q + 1, f);
        }
    }
}

/// Two frames of a run that use the same slot are at least `k` frames apart:
/// no more than `k` frames are ever submitted and not yet waited on.
pub proof fn lemma_slot_reuse_distance(i: nat, j: nat, k: int)
    requires
        k > 0,
        i < j,
        slot_after(i, k) == slot_after(j, k),
    ensures
        j - i >= k,
{
    lemma_slot_after(i, k);
    lemma_slot_after(j, k);
    lemma_fundamental_div_mod(i as int, k);
    lemma_fundamental_div_mod(j as int, k);
    let qi = i as int / k;
    let qj = j as int / k;
    assert(j - i == k * (qj - qi)) by (nonlinear_arith)
        requires
            i as int == k * qi + i as int % k,
            j as int == k * qj + j as int % k,
            i as int % k == j as int % k,
    ;
    assert(qj - qi >= 1) by (nonlinear_arith)
        requires
            j - i == k * (qj - qi),
            j - i > 0,
            k > 0,
    ;
    assert(k * (qj - qi) >= k) by (nonlinear_arith)
        requires
            qj - qi >= 1,
            k > 0,
    ;
}

} // verus!
