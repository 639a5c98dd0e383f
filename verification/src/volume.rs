//! Fixed-point representation of playback volume.
//!
//! The bus reports a native volume in `[0, 1]`; the service exposes it as a
//! percentage in `[0, 100]`. Both are carried as fixed-point integers: the
//! native value in millionths of full scale, the percentage in hundredths of
//! a percent. Scaling between the two is the factor 100 in either direction.

use vstd::prelude::*;

verus! {

/// The largest percentage a command may carry: 100%, in hundredths.
pub const VOLUME_PERCENT_MAX: u32 = 10_000;

/// Scale a native volume reading (millionths of full scale) to a percentage
/// (hundredths of a percent). A native reading of full scale becomes 100%.
pub fn volume_percent_of_native(native: u32) -> (percent: u32)
    ensures
        percent == native / 100,
{
    native / 100
}

/// Scale a percentage (hundredths of a percent) back to a native volume
/// (millionths of full scale), for a set-volume call on the bus.
pub fn native_of_volume_percent(percent: u32) -> (native: u32)
    requires
        percent <= VOLUME_PERCENT_MAX,
    ensures
        native == percent * 100,
{
    percent * 100
}

} // verus!
