//! Decisions around audio capture: which input device to open and whether
//! captured audio must be resampled.

use vstd::prelude::*;

verus! {

/// Sample rate, in hertz, that transcription expects.
pub const TARGET_SAMPLE_RATE: u32 = 16000;

/// Whether captured audio at `rate` must be resampled before transcription:
/// a known rate (non-zero) that differs from the target rate.
pub fn needs_resample(rate: u32) -> (r: bool)
    ensures
        r == (rate != TARGET_SAMPLE_RATE && rate > 0),
        r == (rate != 16000 && rate > 0),
{
    rate != TARGET_SAMPLE_RATE && rate > 0
}

/// Whether an input device whose name could be read as `name` (or could not
/// be read at all: `None`) is the device called `requested`.
pub open spec fn device_name_matches(name: Option<String>, requested: Seq<char>) -> bool {
    match name {
        Some(n) => n@ == requested,
        None => false,
    }
}

/// The input device to open for the user's choice `requested`, given the
/// names of the available input devices in the order the host lists them.
/// `Some(i)` is the first device whose name equals `requested`; `None` means
/// the host's default input device: when `requested` is empty (the user chose
/// the system default) or when no device has that name.
pub fn find_device(requested: &str, names: &Vec<Option<String>>) -> (r: Option<usize>)
    ensures
        requested@.len() == 0 ==> r is None,
        match r {
            Some(i) => {
                &&& i < names@.len()
                &&& device_name_matches(names@[i as int], requested@)
                &&& forall|j: int| 0 <= j < i ==> !device_name_matches(#[trigger] names@[j], requested@)
            },
            None => requested@.len() == 0 || forall|j: int|
                0 <= j < names@.len() ==> !device_name_matches(#[trigger] names@[j], requested@),
        },
{
    if requested.unicode_len() == 0 {
        return None;
    }
    let mut i: usize = 0;
    while i < names.len()
        invariant
            i <= names@.len(),
            requested@.len() > 0,
            forall|j: int| 0 <= j < i ==> !device_name_matches(#[trigger] names@[j], requested@),
        decreases names@.len() - i,
    {
        match &names[i] {
            Some(n) => {
                if *n == requested.to_owned() {
                    return Some(i);
                }
            },
            None => {},
        }
        i = i + 1;
    }
    None
}

} // verus!
