use vstd::prelude::*;

verus! {

/// The offsets, in seconds, offered for a relative seek.
pub const SEEK_OFFSETS: [u64; 7] = [5, 10, 15, 20, 30, 45, 60];

/// The offset at `index` in `SEEK_OFFSETS`.
pub open spec fn seek_offset(index: int) -> u64 {
    if index == 0 {
        5
    } else if index == 1 {
        10
    } else if index == 2 {
        15
    } else if index == 3 {
        20
    } else if index == 4 {
        30
    } else if index == 5 {
        45
    } else {
        60
    }
}

/// Which way a relative seek moves the playback position.
#[derive(Clone, Copy, Debug, PartialEq, Eq, Structural)]
pub enum SeekDirection {
    Forward,
    Back,
}

/// The position reached by seeking `delta` seconds forward from `current`.
pub fn compute_forward(current: u64, delta: u64) -> (r: u64)
    requires
        current + delta <= u64::MAX,
    ensures
        r == current + delta,
{
    current + delta
}

/// `delta` seconds back from `current`, or the start if that is before it.
pub open spec fn back_position(current: u64, delta: u64) -> u64 {
    if delta >= current {
        0
    } else {
        (current - delta) as u64
    }
}

/// The position reached by seeking `delta` seconds back from `current`;
/// seeking before the start lands on the start.
pub fn compute_back(current: u64, delta: u64) -> (r: u64)
    ensures
        r >= 0,
        delta >= current ==> r == 0,
        r == back_position(current, delta),
{
    if delta >= current {
        0
    } else {
        current - delta
    }
}

/// The offset offered at `index` of the seek menu.
pub fn offset_at(index: usize) -> (r: u64)
    requires
        index < 7,
    ensures
        r == seek_offset(index as int),
{
    let offsets = SEEK_OFFSETS;
    offsets[index]
}

} // verus!
