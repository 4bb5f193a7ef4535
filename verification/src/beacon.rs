//! The advertisement that a node without a network identity broadcasts.

use crate::config::Uuid;
use vstd::prelude::*;

verus! {

/// The advertisement type of a mesh beacon.
pub const MESH_BEACON: u8 = 0x2B;

/// The most bytes one advertisement carries.
pub const ADVERTISEMENT_MAX: usize = 31;

/// `heapless::Vec`, a vector with a fixed capacity, carried as an opaque
/// value.
#[verifier::external_type_specification]
#[verifier::external_body]
#[verifier::reject_recursive_types(T)]
pub struct ExBoundedVec<T, const N: usize>(heapless::Vec<T, N>);

/// The bytes that an advertisement buffer holds.
pub uninterp spec fn advertised(data: heapless::Vec<u8, 31>) -> Seq<u8>;

/// Whether `more` bytes fit into an advertisement that holds `len`.
pub open spec fn fits(len: nat, more: nat) -> bool {
    len + more <= ADVERTISEMENT_MAX
}

/// `heapless::Vec::new`: an empty buffer.
#[verifier::external_body]
fn advertisement() -> (data: heapless::Vec<u8, 31>)
    ensures
        advertised(data) == Seq::<u8>::empty(),
{
    heapless::Vec::new()
}

/// `heapless::Vec::extend_from_slice`: appends `bytes` if they fit; if they
/// do not, the buffer stays as it is.
#[verifier::external_body]
fn extend_advertisement(data: &mut heapless::Vec<u8, 31>, bytes: &[u8]) -> (r: Result<(), ()>)
    ensures
        r is Ok == fits(advertised(*old(data)).len(), bytes@.len()),
        r is Ok ==> advertised(*final(data)) == advertised(*old(data)) + bytes@,
        r is Err ==> advertised(*final(data)) == advertised(*old(data)),
{
    data.extend_from_slice(bytes)
}

/// `heapless::Vec::as_slice`: the bytes that the buffer holds.
#[verifier::external_body]
pub(crate) fn advertisement_bytes(data: &heapless::Vec<u8, 31>) -> (bytes: &[u8])
    ensures
        bytes@ == advertised(*data),
{
    data.as_slice()
}

/// The unprovisioned beacon of a device: the length of what follows, the
/// beacon type, the beacon kind, the device's identity and a fixed trailer.
pub open spec fn beacon_layout(uuid: Uuid) -> Seq<u8> {
    seq![20u8, MESH_BEACON, 0x00u8] + uuid.0@ + seq![0xa0u8, 0x40u8]
}

/// Builds the unprovisioned beacon of the device with identity `uuid`.
pub fn unprovisioned_beacon(uuid: &Uuid) -> (adv_data: heapless::Vec<u8, 31>)
    ensures
        advertised(adv_data) == beacon_layout(*uuid),
{
    let mut adv_data = advertisement();
    let head: [u8; 3] = [20, MESH_BEACON, 0x00];
    let trailer: [u8; 2] = [0xa0, 0x40];
    let _ = extend_advertisement(&mut adv_data, head.as_slice());
    let _ = extend_advertisement(&mut adv_data, uuid.0.as_slice());
    let _ = extend_advertisement(&mut adv_data, trailer.as_slice());
    adv_data
}

/// The beacon is 21 bytes long, starts with the count of the bytes that
/// follow, and carries the device's identity from the fourth byte on.
pub proof fn lemma_beacon_layout(uuid: Uuid)
    ensures
        beacon_layout(uuid).len() == 21,
        beacon_layout(uuid)[0] == beacon_layout(uuid).len() - 1,
        beacon_layout(uuid)[1] == MESH_BEACON,
        beacon_layout(uuid)[2] == 0,
        beacon_layout(uuid).subrange(3, 19) == uuid.0@,
        beacon_layout(uuid)[19] == 0xa0,
        beacon_layout(uuid)[20] == 0x40,
{
    assert(beacon_layout(uuid).subrange(3, 19) =~= uuid.0@);
}

} // verus!
