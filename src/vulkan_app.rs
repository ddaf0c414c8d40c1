//! Decisions made while setting up the device: which physical device, which
//! queue family and which optional extensions.

use vstd::prelude::*;

verus! {

#[derive(Debug, Clone, Copy, PartialEq, Eq, Structural)]
pub enum VulkanError {
    NoDeviceForSurfaceFound,
}

#[derive(Copy, Clone, Eq, PartialEq, Debug, Structural)]
pub enum TracingMode {
    NoTracing,
    Basic,
}

/// Vendor id of NVIDIA devices, which are preferred.
pub const VENDOR_ID_NVIDIA: u32 = 0x10DE;

/// Queue capability bit: graphics.
pub const QUEUE_GRAPHICS: u32 = 0x1;

/// The device to use among those that can present to the surface: the first
/// NVIDIA device, else the last one listed.
pub open spec fn spec_select_device(vendor_ids: Seq<u32>) -> Option<int> {
    if exists|i: int| 0 <= i < vendor_ids.len() && vendor_ids[i] == VENDOR_ID_NVIDIA {
        Some(choose|i: int| 0 <= i < vendor_ids.len() && vendor_ids[i] == VENDOR_ID_NVIDIA
            && forall|j: int| 0 <= j < i ==> vendor_ids[j] != VENDOR_ID_NVIDIA)
    } else if vendor_ids.len() > 0 {
        Some(vendor_ids.len() - 1)
    } else {
        None
    }
}

/// Picks a device by the vendor ids of the eligible devices; none when no
/// device is eligible.
pub fn select_device(vendor_ids: &Vec<u32>) -> (r: Result<usize, VulkanError>)
    ensures
        r matches Ok(i) ==> spec_select_device(vendor_ids@) == Some(i as int),
        r is Err <==> vendor_ids@.len() == 0,
        r matches Err(e) ==> e == VulkanError::NoDeviceForSurfaceFound,
{
    let mut i: usize = 0;
    while i < vendor_ids.len()
        invariant
            i <= vendor_ids@.len(),
            forall|j: int| 0 <= j < i ==> vendor_ids@[j] != VENDOR_ID_NVIDIA,
        decreases vendor_ids@.len() - i,
    {
        if vendor_ids[i] == VENDOR_ID_NVIDIA {
            proof {
                let k = choose|k: int| 0 <= k < vendor_ids@.len() && vendor_ids@[k] == VENDOR_ID_NVIDIA
                    && forall|j: int| 0 <= j < k ==> vendor_ids@[j] != VENDOR_ID_NVIDIA;
                assert(vendor_ids@[i as int] == VENDOR_ID_NVIDIA);
                if k < i {
                    assert(vendor_ids@[k] != VENDOR_ID_NVIDIA);
                } else if k > i {
                    assert(vendor_ids@[i as int] != VENDOR_ID_NVIDIA);
                }
            }
            return Ok(i);
        }
        i += 1;
    }
    if vendor_ids.len() == 0 {
        Err(VulkanError::NoDeviceForSurfaceFound)
    } else {
        Ok(vendor_ids.len() - 1)
    }
}

/// The first queue family with graphics support.
pub fn graphics_queue_family(queue_flags: &Vec<u32>) -> (r: Option<usize>)
    ensures
        r matches Some(i) ==> i < queue_flags@.len() && queue_flags@[i as int] & QUEUE_GRAPHICS != 0
            && forall|j: int| 0 <= j < i ==> #[trigger] queue_flags@[j] & QUEUE_GRAPHICS == 0,
        r is None ==> forall|j: int| 0 <= j < queue_flags@.len() ==> #[trigger] queue_flags@[j] & QUEUE_GRAPHICS == 0,
{
    let mut i: usize = 0;
    while i < queue_flags.len()
        invariant
            i <= queue_flags@.len(),
            forall|j: int| 0 <= j < i ==> #[trigger] queue_flags@[j] & QUEUE_GRAPHICS == 0,
        decreases queue_flags@.len() - i,
    {
        if queue_flags[i] & QUEUE_GRAPHICS != 0 {
            return Some(i);
        }
        i += 1;
    }
    None
}

/// `name` is one of `supported`.
pub open spec fn is_supported(supported: Seq<Vec<u8>>, name: Seq<u8>) -> bool {
    exists|i: int| 0 <= i < supported.len() && (#[trigger] supported[i])@ == name
}

fn bytes_equal(a: &Vec<u8>, b: &Vec<u8>) -> (r: bool)
    ensures
        r == (a@ == b@),
{
    if a.len() != b.len() {
        return false;
    }
    let mut i: usize = 0;
    while i < a.len()
        invariant
            a@.len() == b@.len(),
            i <= a@.len(),
            forall|j: int| 0 <= j < i ==> a@[j] == b@[j],
        decreases a@.len() - i,
    {
        if a[i] != b[i] {
            return false;
        }
        i += 1;
    }
    assert(a@ =~= b@);
    true
}

fn contains_name(supported: &Vec<Vec<u8>>, name: &Vec<u8>) -> (r: bool)
    ensures
        r == is_supported(supported@, name@),
{
    let mut i: usize = 0;
    while i < supported.len()
        invariant
            i <= supported@.len(),
            forall|j: int| 0 <= j < i ==> (#[trigger] supported@[j])@ != name@,
        decreases supported@.len() - i,
    {
        if bytes_equal(&supported[i], name) {
            return true;
        }
        i += 1;
    }
    false
}

/// Enables the extensions `ext` when the device supports every one of them:
/// then they are appended to `enabled` in order and the answer is yes;
/// otherwise nothing is enabled.
pub fn add_if_supported(supported: &Vec<Vec<u8>>, ext: &Vec<Vec<u8>>, enabled: &mut Vec<Vec<u8>>) -> (r: bool)
    ensures
        r == forall|i: int| 0 <= i < ext@.len() ==> is_supported(supported@, (#[trigger] ext@[i])@),
        r ==> final(enabled)@.len() == old(enabled)@.len() + ext@.len(),
        r ==> forall|j: int| 0 <= j < old(enabled)@.len() ==> #[trigger] final(enabled)@[j] == old(enabled)@[j],
        r ==> forall|j: int| 0 <= j < ext@.len() ==> (#[trigger] final(enabled)@[old(enabled)@.len() + j])@ == ext@[j]@,
        !r ==> final(enabled)@ == old(enabled)@,
{
    let mut i: usize = 0;
    while i < ext.len()
        invariant
            i <= ext@.len(),
            forall|j: int| 0 <= j < i ==> is_supported(supported@, (#[trigger] ext@[j])@),
        decreases ext@.len() - i,
    {
        if !contains_name(supported, &ext[i]) {
            return false;
        }
        i += 1;
    }
    let ghost start = old(enabled)@;
    let mut k: usize = 0;
    while k < ext.len()
        invariant
            k <= ext@.len(),
            enabled@.len() == start.len() + k,
            forall|j: int| 0 <= j < start.len() ==> #[trigger] enabled@[j] == start[j],
            forall|j: int| 0 <= j < k ==> (#[trigger] enabled@[start.len() + j])@ == ext@[j]@,
        decreases ext@.len() - k,
    {
        let name = ext[k].clone();
        assert(name@ =~= ext@[k as int]@);
        let ghost before = enabled@;
        enabled.push(name);
        proof {
            assert forall|j: int| 0 <= j < k + 1 implies (#[trigger] enabled@[start.len() + j])@ == ext@[j]@ by {
                if j < k {
                    assert(enabled@[start.len() + j] == before[start.len() + j]);
                }
            }
        }
        k += 1;
    }
    true
}

} // verus!
