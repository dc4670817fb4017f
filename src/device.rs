use vstd::prelude::*;

use crate::queue::{families_chosen, has_graphics, has_present, QueueFamilyIndices, SuitabilityError};

verus! {

/// What the driver reports of one physical device that bears on its choice.
#[derive(Clone, Debug)]
pub struct DeviceCandidate {
    /// The capability bits of each queue family.
    pub queue_flags: Vec<u32>,
    /// Whether each queue family can present to the target surface.
    pub present_support: Vec<bool>,
    /// The names of the device-level extensions, as bytes.
    pub extensions: Vec<Vec<u8>>,
}

/// No physical device meets the renderer's needs.
#[derive(Clone, Copy, Debug, PartialEq, Eq, Structural)]
pub struct DeviceSelectionError;

pub open spec fn names_contain(names: Seq<Vec<u8>>, name: Seq<u8>) -> bool {
    exists|i: int| 0 <= i < names.len() && (#[trigger] names[i])@ == name
}

/// Every required extension name is among the available ones.
pub open spec fn extensions_supported(available: Seq<Vec<u8>>, required: Seq<Vec<u8>>) -> bool {
    forall|i: int| 0 <= i < required.len() ==> names_contain(available, (#[trigger] required[i])@)
}

/// A device is suitable where it has a graphics family, a family that can
/// present, and every required extension.
pub open spec fn device_suitable(c: DeviceCandidate, required: Seq<Vec<u8>>) -> bool {
    &&& has_graphics(c.queue_flags@)
    &&& has_present(c.present_support@)
    &&& extensions_supported(c.extensions@, required)
}

fn bytes_equal(a: &Vec<u8>, b: &Vec<u8>) -> (r: bool)
    ensures
        r == (a@ == b@),
{
    if a.len() != b.len() {
        return false;
    }
    let mut i: usize = 0;
    while i < a.len()
        invariant
            i <= a@.len(),
            a@.len() == b@.len(),
            forall|j: int| 0 <= j < i ==> a@[j] == b@[j],
        decreases a@.len() - i,
    {
        if a[i] != b[i] {
            return false;
        }
        i = i + 1;
    }
    assert(a@ =~= b@);
    true
}

fn contains_name(names: &Vec<Vec<u8>>, name: &Vec<u8>) -> (r: bool)
    ensures
        r == names_contain(names@, name@),
{
    let mut i: usize = 0;
    while i < names.len()
        invariant
            i <= names@.len(),
            forall|j: int| 0 <= j < i ==> (#[trigger] names@[j])@ != name@,
        decreases names@.len() - i,
    {
        if bytes_equal(&names[i], name) {
            return true;
        }
        i = i + 1;
    }
    false
}

/// Succeeds where every required device extension is available.
pub fn check_physical_device_extensions(available: &Vec<Vec<u8>>, required: &Vec<Vec<u8>>) -> (r:
    Result<(), SuitabilityError>)
    ensures
        r is Ok <==> extensions_supported(available@, required@),
        r is Err ==> r == Err::<(), SuitabilityError>(SuitabilityError::MissingExtensions),
{
    let mut i: usize = 0;
    while i < required.len()
        invariant
            i <= required@.len(),
            forall|j: int| 0 <= j < i ==> names_contain(available@, (#[trigger] required@[j])@),
        decreases required@.len() - i,
    {
        if !contains_name(available, &required[i]) {
            return Err(SuitabilityError::MissingExtensions);
        }
        i = i + 1;
    }
    Ok(())
}

/// Checks that a device has the queue families and the extensions the renderer
/// needs, and returns the families it will use.
pub fn check_physical_device(candidate: &DeviceCandidate, required: &Vec<Vec<u8>>) -> (r: Result<
    QueueFamilyIndices,
    SuitabilityError,
>)
    requires
        candidate.queue_flags@.len() <= u32::MAX,
        candidate.present_support@.len() <= u32::MAX,
    ensures
        r is Ok <==> device_suitable(*candidate, required@),
        r matches Ok(q) ==> families_chosen(candidate.queue_flags@, candidate.present_support@, q),
        !(has_graphics(candidate.queue_flags@) && has_present(candidate.present_support@)) ==> r
            == Err::<QueueFamilyIndices, SuitabilityError>(SuitabilityError::MissingQueueFamilies),
        has_graphics(candidate.queue_flags@) && has_present(candidate.present_support@)
            && !extensions_supported(candidate.extensions@, required@) ==> r == Err::<
            QueueFamilyIndices,
            SuitabilityError,
        >(SuitabilityError::MissingExtensions),
{
    let indices = QueueFamilyIndices::get(&candidate.queue_flags, &candidate.present_support);
    match indices {
        Ok(q) => {
            match check_physical_device_extensions(&candidate.extensions, required) {
                Ok(()) => Ok(q),
                Err(e) => Err(e),
            }
        },
        Err(e) => Err(e),
    }
}

/// Selects the first suitable device of the list: first match, no ranking.
pub fn pick_physical_device(candidates: &Vec<DeviceCandidate>, required: &Vec<Vec<u8>>) -> (r:
    Result<(usize, QueueFamilyIndices), DeviceSelectionError>)
    requires
        forall|i: int|
            0 <= i < candidates@.len() ==> (#[trigger] candidates@[i]).queue_flags@.len()
                <= u32::MAX && candidates@[i].present_support@.len() <= u32::MAX,
    ensures
        r matches Ok((i, q)) ==> {
            &&& i < candidates@.len()
            &&& device_suitable(candidates@[i as int], required@)
            &&& forall|j: int| 0 <= j < i ==> !device_suitable(#[trigger] candidates@[j], required@)
            &&& families_chosen(
                candidates@[i as int].queue_flags@,
                candidates@[i as int].present_support@,
                q,
            )
        },
        r is Err <==> forall|j: int|
            0 <= j < candidates@.len() ==> !device_suitable(#[trigger] candidates@[j], required@),
{
    let mut i: usize = 0;
    while i < candidates.len()
        invariant
            i <= candidates@.len(),
            forall|j: int|
                0 <= j < candidates@.len() ==> (#[trigger] candidates@[j]).queue_flags@.len()
                    <= u32::MAX && candidates@[j].present_support@.len() <= u32::MAX,
            forall|j: int| 0 <= j < i ==> !device_suitable(#[trigger] candidates@[j], required@),
        decreases candidates@.len() - i,
    {
        match check_physical_device(&candidates[i], required) {
            Ok(q) => {
                return Ok((i, q));
            },
            Err(_) => {},
        }
        i = i + 1;
    }
    Err(DeviceSelectionError)
}

} // verus!
