//! Random draws, from the thread-local generator of `fastrand`.
use vstd::prelude::*;

verus! {

/// `fastrand::u8` over `lo..hi`, from the thread-local generator. Claimed:
/// the value lies in the range; which value comes is left open. An empty
/// range makes the call panic, hence `lo < hi`.
#[verifier::external_body]
fn random_u8(lo: u8, hi: u8) -> (r: u8)
    requires
        lo < hi,
    ensures
        lo <= r < hi,
{
    fastrand::u8(lo..hi)
}

/// `fastrand::u32` over `lo..hi`, from the thread-local generator. Claimed:
/// the value lies in the range; which value comes is left open. An empty
/// range makes the call panic, hence `lo < hi`.
#[verifier::external_body]
fn random_u32(lo: u32, hi: u32) -> (r: u32)
    requires
        lo < hi,
    ensures
        lo <= r < hi,
{
    fastrand::u32(lo..hi)
}

/// `fastrand::i16` over `lo..hi`, from the thread-local generator. Claimed:
/// the value lies in the range; which value comes is left open. An empty
/// range makes the call panic, hence `lo < hi`.
#[verifier::external_body]
fn random_i16(lo: i16, hi: i16) -> (r: i16)
    requires
        lo < hi,
    ensures
        lo <= r < hi,
{
    fastrand::i16(lo..hi)
}

/// `fastrand::i32` over `lo..hi`, from the thread-local generator. Claimed:
/// the value lies in the range; which value comes is left open. An empty
/// range makes the call panic, hence `lo < hi`.
#[verifier::external_body]
fn random_i32(lo: i32, hi: i32) -> (r: i32)
    requires
        lo < hi,
    ensures
        lo <= r < hi,
{
    fastrand::i32(lo..hi)
}

/// The directions, in degrees, of three resources dropped around a point:
/// each turns between 120 and 179 degrees further than the one before.
pub fn drop_angles_degrees() -> (a: [u16; 3])
    ensures
        120 <= a[0] < 180,
        120 <= a[1] - a[0] < 180,
        120 <= a[2] - a[1] < 180,
{
    let d0 = random_u8(120, 180) as u16;
    let d1 = random_u8(120, 180) as u16;
    let d2 = random_u8(120, 180) as u16;
    [d0, d0 + d1, d0 + d1 + d2]
}

/// How far from its anchor a sheep wanders: up to 100 units each way.
pub fn wander_offset() -> (o: (i16, i16))
    ensures
        -100 <= o.0 < 100,
        -100 <= o.1 < 100,
{
    let x = random_i16(-100, 100);
    let y = random_i16(-100, 100);
    (x, y)
}

/// How long, in milliseconds, an idle sheep waits before it wanders.
pub fn idle_timer_ms() -> (t: u32)
    ensures
        6000 <= t < 10000,
{
    5000 + random_u32(1000, 5000)
}

/// Where mined gold drops, below and beside the mine.
pub fn gold_drop_offset() -> (o: (u32, i32))
    ensures
        30 <= o.0 < 60,
        -110 <= o.1 < 110,
{
    let y = random_u32(30, 60);
    let x = random_i32(-110, 110);
    (y, x)
}

} // verus!
