use vstd::prelude::*;

verus! {

/// The pixel size of the swapchain images, the viewport and the scissor.
#[derive(Clone, Copy, Debug, PartialEq, Eq, Structural)]
pub struct Extent {
    pub width: u32,
    pub height: u32,
}

#[derive(Clone, Copy, Debug, PartialEq, Eq, Structural)]
pub enum SwapchainError {
    /// The framebuffers handed in do not match the image views one for one.
    CountMismatch { image_views: usize, frame_buffers: usize },
}

/// The number of swapchain images to ask for: one more than the surface's
/// minimum, capped by its maximum where it has one (a maximum of 0 means none).
pub open spec fn image_count_spec(min_image_count: u32, max_image_count: u32) -> int {
    if max_image_count > 0 && min_image_count + 1 > max_image_count {
        max_image_count as int
    } else {
        min_image_count + 1
    }
}

pub fn swapchain_image_count(min_image_count: u32, max_image_count: u32) -> (r: u32)
    requires
        min_image_count < u32::MAX,
    ensures
        r == image_count_spec(min_image_count, max_image_count),
{
    let mut count = min_image_count + 1;
    if max_image_count > 0 && count > max_image_count {
        count = max_image_count;
    }
    count
}

/// The swapchain's per-image resources (views and framebuffers, of whatever
/// handle types the graphics API gives) and the extent they were made for.
pub struct SwapchainState<V, F> {
    extent: Extent,
    image_views: Vec<V>,
    frame_buffers: Vec<F>,
}

impl<V, F> SwapchainState<V, F> {
    /// One framebuffer for each image view.
    pub open spec fn wf(&self) -> bool {
        self.views().len() == self.frame_buffers().len()
    }

    pub closed spec fn spec_extent(&self) -> Extent {
        self.extent
    }

    pub closed spec fn views(&self) -> Seq<V> {
        self.image_views@
    }

    pub closed spec fn frame_buffers(&self) -> Seq<F> {
        self.frame_buffers@
    }

    /// The state of a freshly created swapchain.
    pub fn new(extent: Extent, image_views: Vec<V>, frame_buffers: Vec<F>) -> (r: Result<
        Self,
        SwapchainError,
    >)
        ensures
            image_views@.len() == frame_buffers@.len() <==> r.is_ok(),
            r matches Ok(s) ==> s.wf() && s.spec_extent() == extent && s.views() == image_views@
                && s.frame_buffers() == frame_buffers@,
            r matches Err(e) ==> e == (SwapchainError::CountMismatch {
                image_views: image_views@.len() as usize,
                frame_buffers: frame_buffers@.len() as usize,
            }),
    {
        if image_views.len() != frame_buffers.len() {
            return Err(
                SwapchainError::CountMismatch {
                    image_views: image_views.len(),
                    frame_buffers: frame_buffers.len(),
                },
            );
        }
        Ok(SwapchainState { extent, image_views, frame_buffers })
    }

    pub fn extent(&self) -> (r: Extent)
        ensures
            r == self.spec_extent(),
    {
        self.extent
    }

    pub fn image_views(&self) -> (r: &Vec<V>)
        ensures
            r@ == self.views(),
    {
        &self.image_views
    }

    pub fn frame_buffer_list(&self) -> (r: &Vec<F>)
        ensures
            r@ == self.frame_buffers(),
    {
        &self.frame_buffers
    }

    /// Starts recreating the swapchain for a new window size. A minimized
    /// window (a zero side) changes nothing and gives `None`. Otherwise the
    /// old views and framebuffers are handed back to be destroyed, the
    /// extent (viewport and scissor) takes the new size, and the state holds
    /// no per-image resources until `finish_recreate`.
    pub fn begin_recreate(&mut self, width: u32, height: u32) -> (r: Option<(Vec<V>, Vec<F>)>)
        requires
            old(self).wf(),
        ensures
            final(self).wf(),
            (width == 0 || height == 0) ==> r.is_none() && *final(self) == *old(self),
            (width != 0 && height != 0) ==> {
                &&& r matches Some(old_res)
                &&& old_res.0@ == old(self).views()
                &&& old_res.1@ == old(self).frame_buffers()
                &&& final(self).spec_extent() == (Extent { width, height })
                &&& final(self).views().len() == 0
                &&& final(self).frame_buffers().len() == 0
            },
    {
        if width == 0 || height == 0 {
            return None;
        }
        let mut views: Vec<V> = Vec::new();
        let mut buffers: Vec<F> = Vec::new();
        std::mem::swap(&mut views, &mut self.image_views);
        std::mem::swap(&mut buffers, &mut self.frame_buffers);
        self.extent = Extent { width, height };
        Some((views, buffers))
    }

    /// Installs the per-image resources created for the new swapchain.
    pub fn finish_recreate(&mut self, image_views: Vec<V>, frame_buffers: Vec<F>) -> (r: Result<
        (),
        SwapchainError,
    >)
        requires
            old(self).wf(),
        ensures
            final(self).wf(),
            final(self).spec_extent() == old(self).spec_extent(),
            image_views@.len() == frame_buffers@.len() <==> r.is_ok(),
            r.is_ok() ==> final(self).views() == image_views@ && final(self).frame_buffers()
                == frame_buffers@,
            r.is_err() ==> *final(self) == *old(self),
            r matches Err(e) ==> e == (SwapchainError::CountMismatch {
                image_views: image_views@.len() as usize,
                frame_buffers: frame_buffers@.len() as usize,
            }),
    {
        if image_views.len() != frame_buffers.len() {
            return Err(
                SwapchainError::CountMismatch {
                    image_views: image_views.len(),
                    frame_buffers: frame_buffers.len(),
                },
            );
        }
        self.image_views = image_views;
        self.frame_buffers = frame_buffers;
        Ok(())
    }
}

} // verus!
