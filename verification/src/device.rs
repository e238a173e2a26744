//! One-time choices made while the device is set up.

use vstd::prelude::*;

verus! {

/// What a queue family can do, as the adapter reports it.
#[derive(Clone, Copy, Debug, PartialEq, Eq, Structural)]
pub struct QueueFamilyInfo {
    pub supports_graphics: bool,
    /// Whether the family can present to the surface; `None` where the
    /// query itself failed.
    pub supports_surface: Option<bool>,
}

impl QueueFamilyInfo {
    /// A family that can both draw and present. A failed query counts as no.
    pub open spec fn suitable(self) -> bool {
        self.supports_graphics && self.supports_surface == Some(true)
    }

    pub fn is_suitable(&self) -> (b: bool)
        ensures
            b == self.suitable(),
    {
        self.supports_graphics && match self.supports_surface {
            Some(supported) => supported,
            None => false,
        }
    }
}

/// Picks the queue family to draw and present with: the first that can do
/// both, in the adapter's order.
pub fn select_queue_family(families: &Vec<QueueFamilyInfo>) -> (chosen: Option<usize>)
    ensures
        chosen matches Some(i) ==> i < families@.len() && families@[i as int].suitable()
            && forall|j: int| 0 <= j < i ==> !families@[j].suitable(),
        chosen is None ==> forall|j: int| 0 <= j < families@.len() ==> !families@[j].suitable(),
{
    let mut next: usize = 0;
    while next < families.len()
        invariant
            next <= families@.len(),
            forall|j: int| 0 <= j < next ==> !families@[j].suitable(),
        decreases families@.len() - next,
    {
        if families[next].is_suitable() {
            return Some(next);
        }
        next = next + 1;
    }
    None
}

} // verus!
