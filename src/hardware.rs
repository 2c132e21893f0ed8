use vstd::prelude::*;

use crate::gpu::FrameBuffer;

verus! {

/// The host around the emulator: a display, the keys, and whether to keep running. Nothing is
/// promised of what an implementation returns.
pub trait Hardware {
    fn is_active(&mut self) -> bool;

    fn draw_framebuffer(&mut self, frame_buffer: &FrameBuffer);

    /// The keys held now: direction bits and action bits.
    fn get_keys(&mut self) -> (u8, u8);

    /// Called once per system step, for the host's own housekeeping.
    fn update(&mut self);
}

/// The system's hold on the host.
pub struct HardwareHandle<T> {
    pub inner: T,
}

impl<T: Hardware> HardwareHandle<T> {
    pub fn new(inner: T) -> (r: HardwareHandle<T>)
        ensures
            r.inner == inner,
    {
        HardwareHandle { inner }
    }

    pub fn get(&self) -> (r: &T)
        ensures
            *r == self.inner,
    {
        &self.inner
    }

    pub fn get_mut(&mut self) -> (r: &mut T)
        ensures
            *r == old(self).inner,
            final(self).inner == *final(r),
    {
        &mut self.inner
    }
}

} // verus!
