use vstd::prelude::*;

verus! {

/// `VK_QUEUE_GRAPHICS_BIT`.
pub const QUEUE_GRAPHICS_BIT: u32 = 1;

/// What the engine reads of a queue family: its `VkQueueFlags` and whether it
/// can present to the window's surface.
#[derive(Debug, Clone, Copy, PartialEq, Eq, Structural)]
pub struct QueueFamily {
    pub queue_flags: u32,
    pub surface_support: bool,
}

/// The family can render graphics and present to the surface.
pub open spec fn family_suitable(f: QueueFamily) -> bool {
    f.queue_flags & QUEUE_GRAPHICS_BIT == QUEUE_GRAPHICS_BIT && f.surface_support
}

/// `i` is the first suitable family of `fams`.
pub open spec fn is_first_suitable(fams: Seq<QueueFamily>, i: int) -> bool {
    &&& 0 <= i < fams.len()
    &&& family_suitable(fams[i])
    &&& forall|j: int| 0 <= j < i ==> !family_suitable(#[trigger] fams[j])
}

pub open spec fn has_suitable(fams: Seq<QueueFamily>) -> bool {
    exists|j: int| 0 <= j < fams.len() && family_suitable(#[trigger] fams[j])
}

/// The first queue family that supports graphics and presentation.
pub fn select_queue_family(families: &Vec<QueueFamily>) -> (res: Option<u32>)
    requires
        families@.len() <= u32::MAX,
    ensures
        match res {
            Some(i) => is_first_suitable(families@, i as int),
            None => !has_suitable(families@),
        },
{
    let n = families.len();
    let mut i: usize = 0;
    while i < n
        invariant
            i <= n,
            n == families@.len(),
            n <= u32::MAX,
            forall|j: int| 0 <= j < i ==> !family_suitable(#[trigger] families@[j]),
        decreases n - i,
    {
        let f = families[i];
        if (f.queue_flags & QUEUE_GRAPHICS_BIT) == QUEUE_GRAPHICS_BIT && f.surface_support {
            return Some(i as u32);
        }
        i = i + 1;
    }
    None
}

/// The first physical device, in enumeration order, with a suitable queue
/// family, together with its first such family.  `devices[d]` lists the
/// queue families of device `d`.
pub fn select_device_and_queue(devices: &Vec<Vec<QueueFamily>>) -> (res: Result<(usize, u32), String>)
    requires
        forall|d: int| 0 <= d < devices@.len() ==> (#[trigger] devices@[d])@.len() <= u32::MAX,
    ensures
        match res {
            Ok((d, q)) => {
                &&& d < devices@.len()
                &&& is_first_suitable(devices@[d as int]@, q as int)
                &&& forall|e: int| 0 <= e < d ==> !has_suitable(#[trigger] devices@[e]@)
            },
            Err(msg) => {
                &&& forall|e: int| 0 <= e < devices@.len() ==> !has_suitable(#[trigger] devices@[e]@)
                &&& msg@ == "適合するGPUとキューファミリーが見つかりませんでした"@
            },
        },
{
    let n = devices.len();
    let mut d: usize = 0;
    while d < n
        invariant
            d <= n,
            n == devices@.len(),
            forall|e: int| 0 <= e < devices@.len() ==> (#[trigger] devices@[e])@.len() <= u32::MAX,
            forall|e: int| 0 <= e < d ==> !has_suitable(#[trigger] devices@[e]@),
        decreases n - d,
    {
        let found = select_queue_family(&devices[d]);
        match found {
            Some(q) => {
                return Ok((d, q));
            },
            None => {},
        }
        d = d + 1;
    }
    Err("適合するGPUとキューファミリーが見つかりませんでした".to_owned())
}

/// A family is suitable exactly when the graphics bit (bit 0) of its flags is
/// set, whatever other capability bits it has, and it can present.
pub proof fn lemma_family_suitable_iff_graphics_bit(f: QueueFamily)
    ensures
        family_suitable(f) <==> (f.queue_flags % 2 == 1 && f.surface_support),
{
    let x = f.queue_flags;
    assert((x & 1u32 == 1u32) <==> (x % 2 == 1)) by (bit_vector);
}

/// A family with the graphics bit, any other bits (compute, transfer, sparse
/// binding, ...) and surface support is suitable.
pub proof fn lemma_extra_capabilities_allowed(other_bits: u32)
    ensures
        family_suitable(QueueFamily { queue_flags: other_bits | QUEUE_GRAPHICS_BIT, surface_support: true }),
{
    assert((other_bits | 1u32) & 1u32 == 1u32) by (bit_vector);
}

/// The first family with the graphics bit set and surface support is the one
/// chosen, and a device with such a family is never passed over as having none.
pub proof fn lemma_first_graphics_family_chosen(fams: Seq<QueueFamily>, i: int)
    requires
        0 <= i < fams.len(),
        fams[i].queue_flags % 2 == 1,
        fams[i].surface_support,
        forall|j: int| 0 <= j < i ==> !((#[trigger] fams[j]).queue_flags % 2 == 1 && fams[j].surface_support),
    ensures
        is_first_suitable(fams, i),
        has_suitable(fams),
{
    lemma_family_suitable_iff_graphics_bit(fams[i]);
    assert forall|j: int| 0 <= j < i implies !family_suitable(#[trigger] fams[j]) by {
        lemma_family_suitable_iff_graphics_bit(fams[j]);
    }
}

/// A family without the graphics bit, or without surface support, is never chosen.
pub proof fn lemma_unsuitable_family_rejected(f: QueueFamily)
    requires
        f.queue_flags % 2 == 0 || !f.surface_support,
    ensures
        !family_suitable(f),
{
    lemma_family_suitable_iff_graphics_bit(f);
}

} // verus!
