use vstd::prelude::*;

verus! {

/// Raw bit of the queue capability to run graphics commands.
pub const QUEUE_GRAPHICS_BIT: u32 = 1;

/// The queue families chosen on one physical device.
#[derive(Clone, Copy, Debug, PartialEq, Eq, Structural)]
pub struct QueueFamilyIndices {
    pub graphics: u32,
    pub presentation: u32,
}

/// Why a physical device cannot serve this renderer.
#[derive(Clone, Copy, Debug, PartialEq, Eq, Structural)]
pub enum SuitabilityError {
    MissingQueueFamilies,
    MissingExtensions,
}

pub open spec fn supports_graphics(flags: u32) -> bool {
    flags & QUEUE_GRAPHICS_BIT == QUEUE_GRAPHICS_BIT
}

/// `i` is the first family that runs graphics commands.
pub open spec fn is_first_graphics(flags: Seq<u32>, i: int) -> bool {
    &&& 0 <= i < flags.len()
    &&& supports_graphics(flags[i])
    &&& forall|j: int| 0 <= j < i ==> !supports_graphics(#[trigger] flags[j])
}

/// `i` is the first family that can present.
pub open spec fn is_first_present(support: Seq<bool>, i: int) -> bool {
    &&& 0 <= i < support.len()
    &&& support[i]
    &&& forall|j: int| 0 <= j < i ==> !#[trigger] support[j]
}

/// `q` names the first graphics family and the first family that can present.
pub open spec fn families_chosen(flags: Seq<u32>, support: Seq<bool>, q: QueueFamilyIndices) -> bool {
    is_first_graphics(flags, q.graphics as int) && is_first_present(support, q.presentation as int)
}

pub open spec fn has_graphics(flags: Seq<u32>) -> bool {
    exists|i: int| 0 <= i < flags.len() && supports_graphics(#[trigger] flags[i])
}

pub open spec fn has_present(support: Seq<bool>) -> bool {
    exists|i: int| 0 <= i < support.len() && #[trigger] support[i]
}

fn first_graphics_family(queue_flags: &Vec<u32>) -> (r: Option<u32>)
    requires
        queue_flags@.len() <= u32::MAX,
    ensures
        r is None <==> !has_graphics(queue_flags@),
        r matches Some(g) ==> is_first_graphics(queue_flags@, g as int),
{
    let mut i: usize = 0;
    while i < queue_flags.len()
        invariant
            i <= queue_flags@.len(),
            queue_flags@.len() <= u32::MAX,
            forall|j: int| 0 <= j < i ==> !supports_graphics(#[trigger] queue_flags@[j]),
        decreases queue_flags@.len() - i,
    {
        if queue_flags[i] & QUEUE_GRAPHICS_BIT == QUEUE_GRAPHICS_BIT {
            assert(supports_graphics(queue_flags@[i as int]));
            return Some(i as u32);
        }
        i = i + 1;
    }
    None
}

fn first_present_family(present_support: &Vec<bool>) -> (r: Option<u32>)
    requires
        present_support@.len() <= u32::MAX,
    ensures
        r is None <==> !has_present(present_support@),
        r matches Some(p) ==> is_first_present(present_support@, p as int),
{
    let mut k: usize = 0;
    while k < present_support.len()
        invariant
            k <= present_support@.len(),
            present_support@.len() <= u32::MAX,
            forall|j: int| 0 <= j < k ==> !#[trigger] present_support@[j],
        decreases present_support@.len() - k,
    {
        if present_support[k] {
            return Some(k as u32);
        }
        k = k + 1;
    }
    None
}

impl QueueFamilyIndices {
    /// Chooses the first family that runs graphics commands and the first that
    /// can present to the surface. `queue_flags[i]` holds the capability bits
    /// of family `i`, `present_support[i]` whether family `i` can present.
    pub fn get(queue_flags: &Vec<u32>, present_support: &Vec<bool>) -> (r: Result<
        QueueFamilyIndices,
        SuitabilityError,
    >)
        requires
            queue_flags@.len() <= u32::MAX,
            present_support@.len() <= u32::MAX,
        ensures
            r is Ok <==> has_graphics(queue_flags@) && has_present(present_support@),
            r is Err ==> r == Err::<QueueFamilyIndices, SuitabilityError>(
                SuitabilityError::MissingQueueFamilies,
            ),
            r matches Ok(q) ==> families_chosen(queue_flags@, present_support@, q),
    {
        let graphics = first_graphics_family(queue_flags);
        let present = first_present_family(present_support);
        match (graphics, present) {
            (Some(g), Some(p)) => Ok(QueueFamilyIndices { graphics: g, presentation: p }),
            _ => Err(SuitabilityError::MissingQueueFamilies),
        }
    }

    /// The distinct family indices, each of which gets one queue on the
    /// logical device.
    pub fn unique_indices(&self) -> (r: Vec<u32>)
        ensures
            r@ == unique_families(*self),
    {
        let mut v: Vec<u32> = Vec::new();
        v.push(self.graphics);
        if self.presentation != self.graphics {
            v.push(self.presentation);
        }
        assert(v@ =~= unique_families(*self));
        v
    }
}

pub open spec fn unique_families(q: QueueFamilyIndices) -> Seq<u32> {
    if q.graphics == q.presentation {
        seq![q.graphics]
    } else {
        seq![q.graphics, q.presentation]
    }
}

} // verus!
