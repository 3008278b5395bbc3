//! Identifiers of the desk's radio service and the lookup of its characteristics.
use vstd::prelude::*;

verus! {

/// The service that the desk advertises.
pub const DESK_SERVICE: u128 = 0x0000ff12_0000_1000_8000_00805f9b34fb;

/// The characteristic that takes command frames.
pub const WRITE_CHARACTERISTIC: u128 = 0x0000ff01_0000_1000_8000_00805f9b34fb;

/// The characteristic that sends notification frames.
pub const NOTIFY_CHARACTERISTIC: u128 = 0x0000ff02_0000_1000_8000_00805f9b34fb;

/// Why the connection to the desk cannot be set up.
#[derive(Clone, Copy, Debug, PartialEq, Eq, Structural)]
pub enum SetupError {
    CharacteristicNotFound(u128),
}

/// Finds the first characteristic whose identifier is `wanted`.
pub fn find_characteristic(ids: &Vec<u128>, wanted: u128) -> (r: Result<usize, SetupError>)
    ensures
        r matches Ok(i) ==> i < ids@.len() && ids@[i as int] == wanted && forall|j: int|
            0 <= j < i ==> ids@[j] != wanted,
        r is Err <==> !ids@.contains(wanted),
        r matches Err(e) ==> e == SetupError::CharacteristicNotFound(wanted),
{
    let mut i: usize = 0;
    while i < ids.len()
        invariant
            i <= ids@.len(),
            forall|j: int| 0 <= j < i ==> ids@[j] != wanted,
        decreases ids@.len() - i,
    {
        if ids[i] == wanted {
            return Ok(i);
        }
        i = i + 1;
    }
    Err(SetupError::CharacteristicNotFound(wanted))
}

} // verus!
