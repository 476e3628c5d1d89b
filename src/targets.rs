//! The per-image resources of a presentation surface: its images, one view
//! per image and one framebuffer (frame target) per view.
use vstd::prelude::*;

use crate::surface::Extent;

verus! {

/// What is needed to create one framebuffer: a single attachment, the
/// surface extent, one layer.
#[derive(Clone, Copy, Debug, PartialEq, Eq, Structural)]
pub struct FramebufferDesc {
    pub attachment: u64,
    pub width: u32,
    pub height: u32,
    pub layers: u32,
}

pub open spec fn framebuffer_desc_of(view: u64, extent: Extent) -> FramebufferDesc {
    FramebufferDesc { attachment: view, width: extent.width, height: extent.height, layers: 1 }
}

/// One framebuffer description per image view, in view order.
pub fn framebuffer_descs(views: &Vec<u64>, extent: Extent) -> (r: Vec<FramebufferDesc>)
    ensures
        r@.len() == views@.len(),
        forall|i: int| 0 <= i < views@.len() ==> #[trigger] r@[i] == framebuffer_desc_of(views@[i], extent),
{
    let mut r: Vec<FramebufferDesc> = Vec::with_capacity(views.len());
    let mut i: usize = 0;
    while i < views.len()
        invariant
            i <= views@.len(),
            r@.len() == i,
            forall|j: int| 0 <= j < i ==> #[trigger] r@[j] == framebuffer_desc_of(views@[j], extent),
        decreases views@.len() - i,
    {
        r.push(FramebufferDesc { attachment: views[i], width: extent.width, height: extent.height, layers: 1 });
        i = i + 1;
    }
    r
}

/// The images of one swap chain, their views and their frame targets, all
/// in image order.
#[derive(Debug)]
pub struct FrameTargets {
    images: Vec<u64>,
    views: Vec<u64>,
    framebuffers: Vec<u64>,
    extent: Extent,
}

/// The handles that tearing a target set down must destroy, framebuffers
/// before views.
#[derive(Debug)]
pub struct RetiredTargets {
    pub framebuffers: Vec<u64>,
    pub views: Vec<u64>,
}

impl FrameTargets {
    pub closed spec fn images(&self) -> Seq<u64> {
        self.images@
    }

    pub closed spec fn views(&self) -> Seq<u64> {
        self.views@
    }

    pub closed spec fn framebuffers(&self) -> Seq<u64> {
        self.framebuffers@
    }

    pub closed spec fn extent_spec(&self) -> Extent {
        self.extent
    }

    /// One view and one frame target per image.
    pub open spec fn wf(&self) -> bool {
        &&& self.views().len() == self.images().len()
        &&& self.framebuffers().len() == self.images().len()
    }

    /// Gathers a target set; `None` unless there is exactly one view and one
    /// framebuffer per image.
    pub fn assemble(images: Vec<u64>, views: Vec<u64>, framebuffers: Vec<u64>, extent: Extent) -> (r:
        Option<FrameTargets>)
        ensures
            r is Some <==> (views@.len() == images@.len() && framebuffers@.len() == images@.len()),
            r matches Some(t) ==> {
                &&& t.wf()
                &&& t.images() == images@
                &&& t.views() == views@
                &&& t.framebuffers() == framebuffers@
                &&& t.extent_spec() == extent
            },
    {
        if views.len() == images.len() && framebuffers.len() == images.len() {
            Some(FrameTargets { images, views, framebuffers, extent })
        } else {
            None
        }
    }

    /// The number of presentation images.
    pub fn len(&self) -> (r: usize)
        ensures
            r == self.images().len(),
    {
        self.images.len()
    }

    pub fn extent(&self) -> (r: Extent)
        ensures
            r == self.extent_spec(),
    {
        self.extent
    }

    /// The frame target of presentation image `image`, if there is one.
    pub fn framebuffer(&self, image: u32) -> (r: Option<u64>)
        requires
            self.wf(),
        ensures
            r is Some <==> image < self.images().len(),
            r matches Some(f) ==> f == self.framebuffers()[image as int],
    {
        if (image as usize) < self.images.len() {
            Some(self.framebuffers[image as usize])
        } else {
            None
        }
    }

    /// Gives up the set, handing back every framebuffer and every view for
    /// destruction.
    pub fn retire(self) -> (r: RetiredTargets)
        ensures
            r.framebuffers@ == self.framebuffers(),
            r.views@ == self.views(),
    {
        RetiredTargets { framebuffers: self.framebuffers, views: self.views }
    }
}

} // verus!
