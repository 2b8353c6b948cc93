use vstd::prelude::*;
use crate::geometry::Extent;

verus! {

/// Which of the objects that make up the render surface exist.
///
/// Outside a reconstruction pass the four are all present, with a back
/// buffer bound, or all absent.
#[derive(Clone, Copy, Debug, PartialEq, Eq)]
pub struct Surface {
    /// The drawing context.
    pub context: bool,
    /// The swapchain.
    pub swapchain: bool,
    /// The composition visual that shows the swapchain.
    pub visual: bool,
    /// The composition target that roots the visual on the window.
    pub target: bool,
    /// The size of the back buffer that the drawing context is bound to.
    pub backbuffer: Option<Extent>,
}

/// Which of the content's two resource tiers are populated.
#[derive(Clone, Copy, Debug, PartialEq, Eq)]
pub struct Tiers {
    /// Resources that live as long as the graphics device.
    pub device: bool,
    /// The surface size for which the sized resources were made.
    pub sized: Option<Extent>,
}

impl Surface {
    /// Nothing exists.
    pub open spec fn is_absent(self) -> bool {
        &&& !self.context
        &&& !self.swapchain
        &&& !self.visual
        &&& !self.target
        &&& self.backbuffer is None
    }

    /// Everything exists and the drawing context is bound to a back buffer
    /// of the given size.
    pub open spec fn is_live_at(self, extent: Extent) -> bool {
        &&& self.context
        &&& self.swapchain
        &&& self.visual
        &&& self.target
        &&& self.backbuffer == Some(extent)
    }

    /// Everything exists and a back buffer is bound.
    pub open spec fn is_live(self) -> bool {
        &&& self.context
        &&& self.swapchain
        &&& self.visual
        &&& self.target
        &&& self.backbuffer is Some
    }

    /// The surface with nothing in it.
    pub fn absent() -> (surface: Surface)
        ensures
            surface.is_absent(),
    {
        Surface { context: false, swapchain: false, visual: false, target: false, backbuffer: None }
    }

    /// Whether all four objects exist and a back buffer is bound.
    pub fn live(&self) -> (yes: bool)
        ensures
            yes == self.is_live(),
    {
        self.context && self.swapchain && self.visual && self.target && self.backbuffer.is_some()
    }

    /// Whether none of the objects exists.
    pub fn torn_down(&self) -> (yes: bool)
        ensures
            yes == self.is_absent(),
    {
        !self.context && !self.swapchain && !self.visual && !self.target
            && self.backbuffer.is_none()
    }
}

impl Tiers {
    /// Neither tier is populated.
    pub open spec fn is_empty(self) -> bool {
        !self.device && self.sized is None
    }

    /// Both tiers are populated, the sized one for the given size.
    pub open spec fn is_full_at(self, extent: Extent) -> bool {
        self.device && self.sized == Some(extent)
    }

    /// Sized resources never exist without device resources.
    pub open spec fn ordered(self) -> bool {
        self.sized is Some ==> self.device
    }

    /// The tiers of content that holds nothing.
    pub fn empty() -> (tiers: Tiers)
        ensures
            tiers.is_empty(),
    {
        Tiers { device: false, sized: None }
    }

    /// Whether drawing is permitted: both tiers are populated.
    pub fn drawable(&self) -> (yes: bool)
        ensures
            yes == (self.device && self.sized is Some),
    {
        self.device && self.sized.is_some()
    }
}

} // verus!
