//! Queue family selection: the family that both draws and presents.

use vstd::prelude::*;
use crate::constants::QUEUE_GRAPHICS;

verus! {

/// What a device reports about one of its queue families, together with
/// whether that family can present to the surface in question.
#[derive(Clone, Copy, Debug, PartialEq, Eq, Structural)]
pub struct QueueFamilyProperties {
    pub queue_count: u32,
    pub queue_flags: u32,
    pub present_support: bool,
}

/// Indices of the queue families chosen for a physical device.
#[derive(Clone, Copy, Debug, PartialEq, Eq, Structural)]
pub struct QueueFamily {
    pub graphics_family: Option<usize>,
    pub present_family: Option<usize>,
}

/// Every bit of `wanted` is set in `flags`.
pub open spec fn flags_contain(flags: u32, wanted: u32) -> bool {
    flags & wanted == wanted
}

impl QueueFamilyProperties {
    /// The family has a queue, draws, and presents to the surface.
    pub open spec fn suitable(self) -> bool {
        self.queue_count > 0 && flags_contain(self.queue_flags, QUEUE_GRAPHICS)
            && self.present_support
    }
}

/// The selection made from `families`: both roles go to the first suitable
/// family, and to none where no family is suitable.
pub open spec fn selects(families: Seq<QueueFamilyProperties>, selection: QueueFamily) -> bool {
    &&& selection.present_family == selection.graphics_family
    &&& match selection.graphics_family {
        Some(index) => {
            &&& index < families.len()
            &&& families[index as int].suitable()
            &&& forall|j: int| 0 <= j < index ==> !(#[trigger] families[j]).suitable()
        },
        None => forall|j: int| 0 <= j < families.len() ==> !(#[trigger] families[j]).suitable(),
    }
}

/// Calls `ash::vk::QueueFlags::contains`, which tells whether every bit of the
/// second flag set is set in the first.
#[verifier::external_body]
fn queue_flags_contain(flags: u32, wanted: u32) -> (contained: bool)
    ensures
        contained == flags_contain(flags, wanted),
{
    ash::vk::QueueFlags::from_raw(flags).contains(ash::vk::QueueFlags::from_raw(wanted))
}

impl QueueFamily {
    /// The selection is usable once a graphics family has been found.
    pub fn is_complete(&self) -> (complete: bool)
        ensures
            complete == self.graphics_family.is_some(),
    {
        self.graphics_family.is_some()
    }
}

/// Whether a family has a queue, draws, and presents to the surface.
pub fn is_suitable(family: &QueueFamilyProperties) -> (suitable: bool)
    ensures
        suitable == family.suitable(),
{
    family.queue_count > 0 && queue_flags_contain(family.queue_flags, QUEUE_GRAPHICS)
        && family.present_support
}

/// Selects the first queue family that has a queue, supports graphics, and can
/// present to the surface.
pub fn find_graphical_queue_family(families: &[QueueFamilyProperties]) -> (selection: QueueFamily)
    ensures
        selects(families@, selection),
{
    let mut i: usize = 0;
    while i < families.len()
        invariant
            i <= families@.len(),
            forall|j: int| 0 <= j < i ==> !(#[trigger] families@[j]).suitable(),
        decreases families@.len() - i,
    {
        if is_suitable(&families[i]) {
            return QueueFamily { graphics_family: Some(i), present_family: Some(i) };
        }
        i += 1;
    }
    QueueFamily { graphics_family: None, present_family: None }
}

/// From one list of families exactly one selection is made.
pub proof fn lemma_selection_unique(
    families: Seq<QueueFamilyProperties>,
    first: QueueFamily,
    second: QueueFamily,
)
    requires
        selects(families, first),
        selects(families, second),
    ensures
        first == second,
{
    match (first.graphics_family, second.graphics_family) {
        (Some(a), Some(b)) => {
            if a < b {
                assert(!families[a as int].suitable());
            }
            if b < a {
                assert(!families[b as int].suitable());
            }
        },
        (Some(a), None) => {
            assert(!families[a as int].suitable());
        },
        (None, Some(b)) => {
            assert(!families[b as int].suitable());
        },
        (None, None) => {},
    }
}

} // verus!
