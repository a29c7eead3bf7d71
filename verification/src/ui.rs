//! What the windows show and what their controls do. The window is created on
//! demand and destroyed when it is closed; capture, hotkeys, presence and the
//! library go on without it.
use vstd::prelude::*;

use crate::numbers::{round_wide_ratio, to_double};
use crate::text::{decimal, join3};

pub mod clip;
pub mod events;
pub mod gallery;
pub mod games;
pub mod intro;
pub mod replies;
pub mod saving;
pub mod status;
pub mod updates;
pub mod window;

verus! {

/// How often the status is refreshed, in milliseconds.
pub const STATUS_REFRESH: u64 = 500;

/// Displays are listed again every this many refreshes.
pub const MONITOR_REFRESH_TICKS: u32 = 4;

/// The window is dropped this many milliseconds after the close request.
pub const UNLOAD_DELAY: u64 = 50;

/// Quiet time in milliseconds after the last settings change before it is
/// saved.
pub const AUTOSAVE_DELAY: u64 = 600;

/// How many milliseconds the "saved" notice stays on the settings page.
pub const SAVED_NOTICE: u64 = 2500;

/// A number of bytes in megabytes, with one decimal.
pub open spec fn megabytes(bytes: u64) -> Seq<char> {
    let tenths = crate::numbers::nearest(
        10 * crate::numbers::as_double(bytes as nat),
        0x10_0000,
    );
    crate::text::dec(tenths / 10) + "."@ + crate::text::dec(tenths % 10)
}

/// Writes a number of bytes in megabytes, with one decimal.
pub fn format_megabytes(bytes: u64) -> (r: String)
    ensures
        r@ == megabytes(bytes),
{
    let n: u128 = to_double(bytes);
    let tenths: u128 = round_wide_ratio(10 * n, 0x10_0000);
    assert(tenths <= 0x1_0000_0000_0000_0000);
    join3(decimal((tenths / 10) as u64).as_str(), ".", decimal((tenths % 10) as u64).as_str())
}

/// A number of bytes in whole megabytes.
pub open spec fn whole_megabytes(bytes: u64) -> Seq<char> {
    crate::text::dec(
        crate::numbers::nearest(crate::numbers::as_double(bytes as nat), 0x10_0000),
    )
}

/// Writes a number of bytes in whole megabytes.
pub fn format_whole_megabytes(bytes: u64) -> (r: String)
    ensures
        r@ == whole_megabytes(bytes),
{
    let n: u128 = to_double(bytes);
    let mb: u128 = round_wide_ratio(n, 0x10_0000);
    decimal(mb as u64)
}

} // verus!
