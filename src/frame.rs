//! The per-frame driver: a state machine that, from what the last driver
//! call reported, decides the next call. Whoever owns the device runs it.
use vstd::prelude::*;
use crate::swapchain::Extent2D;
use crate::sync::{InFlightFrames, RingView, SyncObjects};

verus! {

/// Where the driver stands within a frame.
#[derive(Clone, Copy, Debug, PartialEq, Eq, Structural)]
pub enum FramePhase {
    Idle,
    WaitFence,
    AcquireImage,
    RecordCommands,
    Submit,
    Present,
    /// A swapchain rebuild was asked for and has not been reported done.
    Recreating,
    /// A fatal driver error was reported; nothing more is done.
    Failed,
}

/// What the last driver call reported, or that a new frame is due.
#[derive(Clone, Copy, Debug, PartialEq, Eq, Structural)]
pub enum FrameEvent {
    /// A new frame is due.
    Tick,
    FenceSignaled,
    ImageAcquired { image_index: u32, suboptimal: bool },
    AcquireOutOfDate,
    CommandsRecorded,
    Submitted,
    Presented { suboptimal: bool },
    PresentOutOfDate,
    /// The swapchain was rebuilt with this extent.
    SwapchainRecreated { extent: Extent2D },
    /// The surface offered no extent with an area; nothing was destroyed
    /// and the rebuild is to be tried again.
    RecreateDeferred,
    /// A driver call failed with this raw result code.
    DriverError { code: i32 },
}

/// The driver call to make next.
#[derive(Clone, Copy, Debug, PartialEq, Eq, Structural)]
pub enum FrameAction {
    /// Block on the fence of the frame's slot.
    WaitFence { fence: u64 },
    /// Ask for the next image, to be signalled on `semaphore`.
    AcquireImage { semaphore: u64 },
    /// Reset and record the command buffer of `slot` for `image_index`, and
    /// refresh the uniform buffer of `slot`.
    RecordCommands { slot: usize, image_index: u32, extent: Extent2D },
    /// Reset `fence`, then submit the command buffer of `slot`: it waits on
    /// `wait_semaphore` at colour output, signals `signal_semaphore` and
    /// `fence` when done.
    Submit { slot: usize, wait_semaphore: u64, signal_semaphore: u64, fence: u64 },
    /// Present `image_index` once `wait_semaphore` is signalled.
    Present { image_index: u32, wait_semaphore: u64 },
    /// Wait for the device to idle, then rebuild the swapchain, its image
    /// views and framebuffers for `extent`.
    RecreateSwapchain { extent: Extent2D },
    /// The frame is over, drawn or skipped.
    EndFrame,
    /// Stop: a driver call failed with `code`.
    Fatal { code: i32 },
    /// The event does not fit the phase; nothing changed.
    Rejected,
}

/// The driver as a value.
pub ghost struct DriverView {
    pub phase: FramePhase,
    pub ring: RingView,
    /// The objects and slot index of the frame under way.
    pub slot_objects: SyncObjects,
    pub slot: int,
    pub image_index: u32,
    /// The window's latest size.
    pub window: Extent2D,
    pub swapchain_extent: Extent2D,
    /// A resize was seen and the swapchain not rebuilt for it yet.
    pub dirty: bool,
    /// The acquired image was suboptimal: rebuild after presenting it.
    pub rebuild_after_present: bool,
}

impl DriverView {
    /// After the frame ended on an out-of-date or suboptimal swapchain: a
    /// rebuild when the window has an area, else a skipped frame with the
    /// rebuild kept for later.
    pub open spec fn rebuild_or_defer(self) -> (DriverView, FrameAction) {
        if self.window.has_area() {
            (
                DriverView { phase: FramePhase::Recreating, rebuild_after_present: false, ..self },
                FrameAction::RecreateSwapchain { extent: self.window },
            )
        } else {
            (
                DriverView {
                    phase: FramePhase::Idle,
                    dirty: true,
                    rebuild_after_present: false,
                    ..self
                },
                FrameAction::EndFrame,
            )
        }
    }

    /// The driver's next state and call on `event`.
    pub open spec fn transition(self, event: FrameEvent) -> (DriverView, FrameAction) {
        match (self.phase, event) {
            (FramePhase::Failed, _) => (self, FrameAction::Rejected),
            (_, FrameEvent::DriverError { code }) => (
                DriverView { phase: FramePhase::Failed, ..self },
                FrameAction::Fatal { code },
            ),
            (FramePhase::Idle, FrameEvent::Tick) => {
                if self.dirty {
                    if self.window.has_area() {
                        (
                            DriverView { phase: FramePhase::Recreating, ..self },
                            FrameAction::RecreateSwapchain { extent: self.window },
                        )
                    } else {
                        (self, FrameAction::EndFrame)
                    }
                } else {
                    let objects = self.ring.slots[self.ring.current];
                    (
                        DriverView {
                            phase: FramePhase::WaitFence,
                            ring: self.ring.step(),
                            slot_objects: objects,
                            slot: self.ring.current,
                            ..self
                        },
                        FrameAction::WaitFence { fence: objects.fence },
                    )
                }
            },
            (FramePhase::Recreating, FrameEvent::SwapchainRecreated { extent }) => (
                DriverView {
                    phase: FramePhase::Idle,
                    swapchain_extent: extent,
                    dirty: false,
                    ..self
                },
                FrameAction::EndFrame,
            ),
            (FramePhase::Recreating, FrameEvent::RecreateDeferred) => (
                DriverView { phase: FramePhase::Idle, dirty: true, ..self },
                FrameAction::EndFrame,
            ),
            (FramePhase::WaitFence, FrameEvent::FenceSignaled) => (
                DriverView { phase: FramePhase::AcquireImage, ..self },
                FrameAction::AcquireImage { semaphore: self.slot_objects.image_available_semaphores },
            ),
            (FramePhase::AcquireImage, FrameEvent::ImageAcquired { image_index, suboptimal }) => (
                DriverView {
                    phase: FramePhase::RecordCommands,
                    image_index,
                    rebuild_after_present: suboptimal,
                    ..self
                },
                FrameAction::RecordCommands {
                    slot: self.slot as usize,
                    image_index,
                    extent: self.swapchain_extent,
                },
            ),
            (FramePhase::AcquireImage, FrameEvent::AcquireOutOfDate) => self.rebuild_or_defer(),
            (FramePhase::RecordCommands, FrameEvent::CommandsRecorded) => (
                DriverView { phase: FramePhase::Submit, ..self },
                FrameAction::Submit {
                    slot: self.slot as usize,
                    wait_semaphore: self.slot_objects.image_available_semaphores,
                    signal_semaphore: self.slot_objects.render_finished_semaphore,
                    fence: self.slot_objects.fence,
                },
            ),
            (FramePhase::Submit, FrameEvent::Submitted) => (
                DriverView { phase: FramePhase::Present, ..self },
                FrameAction::Present {
                    image_index: self.image_index,
                    wait_semaphore: self.slot_objects.render_finished_semaphore,
                },
            ),
            (FramePhase::Present, FrameEvent::Presented { suboptimal }) => {
                if suboptimal || self.rebuild_after_present || self.dirty {
                    self.rebuild_or_defer()
                } else {
                    (DriverView { phase: FramePhase::Idle, ..self }, FrameAction::EndFrame)
                }
            },
            (FramePhase::Present, FrameEvent::PresentOutOfDate) => self.rebuild_or_defer(),
            _ => (self, FrameAction::Rejected),
        }
    }

    /// The driver after the window reports a new size.
    pub open spec fn resized(self, width: u32, height: u32) -> DriverView {
        DriverView { window: Extent2D { width, height }, dirty: true, ..self }
    }
}

/// A resize to zero area rebuilds nothing: every frame is skipped and the
/// driver stays as it is. A later resize to a size with area makes the next
/// frame rebuild the swapchain for that size, and the rebuild's report
/// brings the driver back to idle with the new extent and nothing pending.
pub proof fn lemma_zero_area_resize(d: DriverView, width: u32, height: u32, built: Extent2D)
    requires
        d.phase == FramePhase::Idle,
        width > 0,
        height > 0,
    ensures
        d.resized(0, 0).transition(FrameEvent::Tick) == (d.resized(0, 0), FrameAction::EndFrame),
        d.resized(0, 0).resized(width, height).transition(FrameEvent::Tick) == (
            DriverView {
                phase: FramePhase::Recreating,
                ..d.resized(0, 0).resized(width, height)
            },
            FrameAction::RecreateSwapchain { extent: Extent2D { width, height } },
        ),
        d.resized(0, 0).resized(width, height).transition(FrameEvent::Tick).0.transition(
            FrameEvent::SwapchainRecreated { extent: built },
        ) == (
            DriverView {
                phase: FramePhase::Idle,
                swapchain_extent: built,
                dirty: false,
                ..d.resized(0, 0).resized(width, height)
            },
            FrameAction::EndFrame,
        ),
{
}

/// The per-frame driver.
pub struct FrameDriver {
    phase: FramePhase,
    frames: InFlightFrames,
    slot_objects: SyncObjects,
    slot: usize,
    image_index: u32,
    window: Extent2D,
    swapchain_extent: Extent2D,
    dirty: bool,
    rebuild_after_present: bool,
}

impl View for FrameDriver {
    type V = DriverView;

    closed spec fn view(&self) -> DriverView {
        DriverView {
            phase: self.phase,
            ring: self.frames@,
            slot_objects: self.slot_objects,
            slot: self.slot as int,
            image_index: self.image_index,
            window: self.window,
            swapchain_extent: self.swapchain_extent,
            dirty: self.dirty,
            rebuild_after_present: self.rebuild_after_present,
        }
    }
}

impl FrameDriver {
    /// An idle driver over a ring of frames, for a swapchain just built
    /// with `swapchain_extent` in a window of size `window`.
    pub fn new(frames: InFlightFrames, window: Extent2D, swapchain_extent: Extent2D) -> (r:
        FrameDriver)
        ensures
            r@.phase == FramePhase::Idle,
            r@.ring == frames@,
            r@.window == window,
            r@.swapchain_extent == swapchain_extent,
            !r@.dirty,
            !r@.rebuild_after_present,
    {
        FrameDriver {
            phase: FramePhase::Idle,
            frames,
            slot_objects: SyncObjects {
                image_available_semaphores: 0,
                render_finished_semaphore: 0,
                fence: 0,
            },
            slot: 0,
            image_index: 0,
            window,
            swapchain_extent,
            dirty: false,
            rebuild_after_present: false,
        }
    }

    pub fn phase(&self) -> (r: FramePhase)
        ensures
            r == self@.phase,
    {
        self.phase
    }

    /// The slot of the frame under way.
    pub fn current_slot(&self) -> (r: usize)
        ensures
            r == self@.slot,
    {
        self.slot
    }

    pub fn swapchain_extent(&self) -> (r: Extent2D)
        ensures
            r == self@.swapchain_extent,
    {
        self.swapchain_extent
    }

    /// Records a new window size; the swapchain is rebuilt at the next frame
    /// that the size has an area for.
    pub fn on_resize(&mut self, width: u32, height: u32)
        ensures
            final(self)@ == old(self)@.resized(width, height),
    {
        self.window = Extent2D { width, height };
        self.dirty = true;
    }

    fn rebuild_or_defer(&mut self) -> (r: FrameAction)
        ensures
            (final(self)@, r) == old(self)@.rebuild_or_defer(),
    {
        self.rebuild_after_present = false;
        if self.window.width > 0 && self.window.height > 0 {
            self.phase = FramePhase::Recreating;
            FrameAction::RecreateSwapchain { extent: self.window }
        } else {
            self.phase = FramePhase::Idle;
            self.dirty = true;
            FrameAction::EndFrame
        }
    }

    /// Takes what the last driver call reported and returns the next call.
    pub fn step(&mut self, event: FrameEvent) -> (r: FrameAction)
        ensures
            (final(self)@, r) == old(self)@.transition(event),
    {
        match (self.phase, event) {
            (FramePhase::Failed, _) => FrameAction::Rejected,
            (_, FrameEvent::DriverError { code }) => {
                self.phase = FramePhase::Failed;
                FrameAction::Fatal { code }
            },
            (FramePhase::Idle, FrameEvent::Tick) => {
                if self.dirty {
                    if self.window.width > 0 && self.window.height > 0 {
                        self.phase = FramePhase::Recreating;
                        FrameAction::RecreateSwapchain { extent: self.window }
                    } else {
                        FrameAction::EndFrame
                    }
                } else {
                    let slot = self.frames.current_frame();
                    let objects = self.frames.next().unwrap();
                    self.phase = FramePhase::WaitFence;
                    self.slot_objects = objects;
                    self.slot = slot;
                    FrameAction::WaitFence { fence: objects.fence }
                }
            },
            (FramePhase::Recreating, FrameEvent::SwapchainRecreated { extent }) => {
                self.phase = FramePhase::Idle;
                self.swapchain_extent = extent;
                self.dirty = false;
                FrameAction::EndFrame
            },
            (FramePhase::Recreating, FrameEvent::RecreateDeferred) => {
                self.phase = FramePhase::Idle;
                self.dirty = true;
                FrameAction::EndFrame
            },
            (FramePhase::WaitFence, FrameEvent::FenceSignaled) => {
                self.phase = FramePhase::AcquireImage;
                FrameAction::AcquireImage { semaphore: self.slot_objects.image_available_semaphores }
            },
            (FramePhase::AcquireImage, FrameEvent::ImageAcquired { image_index, suboptimal }) => {
                self.phase = FramePhase::RecordCommands;
                self.image_index = image_index;
                self.rebuild_after_present = suboptimal;
                FrameAction::RecordCommands {
                    slot: self.slot,
                    image_index,
                    extent: self.swapchain_extent,
                }
            },
            (FramePhase::AcquireImage, FrameEvent::AcquireOutOfDate) => self.rebuild_or_defer(),
            (FramePhase::RecordCommands, FrameEvent::CommandsRecorded) => {
                self.phase = FramePhase::Submit;
                FrameAction::Submit {
                    slot: self.slot,
                    wait_semaphore: self.slot_objects.image_available_semaphores,
                    signal_semaphore: self.slot_objects.render_finished_semaphore,
                    fence: self.slot_objects.fence,
                }
            },
            (FramePhase::Submit, FrameEvent::Submitted) => {
                self.phase = FramePhase::Present;
                FrameAction::Present {
                    image_index: self.image_index,
                    wait_semaphore: self.slot_objects.render_finished_semaphore,
                }
            },
            (FramePhase::Present, FrameEvent::Presented { suboptimal }) => {
                if suboptimal || self.rebuild_after_present || self.dirty {
                    self.rebuild_or_defer()
                } else {
                    self.phase = FramePhase::Idle;
                    FrameAction::EndFrame
                }
            },
            (FramePhase::Present, FrameEvent::PresentOutOfDate) => self.rebuild_or_defer(),
            _ => FrameAction::Rejected,
        }
    }
}

} // verus!
