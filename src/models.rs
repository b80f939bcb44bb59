use vstd::prelude::*;

use crate::strings::{concat, decimal, digit_char, push_char, to_decimal};

verus! {

/// `bytes / unit` in units of `10^-decimals` (`decimals` is 0 or 1),
/// rounded to the nearest, ties to even.
pub open spec fn rounded_scaled(bytes: u64, unit: u64, decimals: nat) -> nat
    recommends
        unit > 0,
{
    let scale: nat = if decimals == 0 { 1 } else { 10 };
    let num: nat = (bytes as nat) * scale;
    let q: nat = num / (unit as nat);
    let rem: nat = num % (unit as nat);
    if 2 * rem > unit as nat || (2 * rem == unit as nat && q % 2 == 1) { q + 1 } else { q }
}

/// The decimal text of `bytes / unit` with `decimals` (0 or 1) digits after
/// the point, rounded to the nearest, ties to even.
pub open spec fn rounded_text(bytes: u64, unit: u64, decimals: nat) -> Seq<char> {
    let t = rounded_scaled(bytes, unit, decimals);
    if decimals == 0 {
        decimal(t)
    } else {
        decimal(t / 10).push('.').push(digit_char(t % 10))
    }
}

/// The text of `bytes / unit` as `rounded_text` gives it.
pub fn rounded_units(bytes: u64, unit: u64, decimals: u64) -> (r: String)
    requires
        unit > 0,
        decimals <= 1,
    ensures
        r@ == rounded_text(bytes, unit, decimals as nat),
{
    let scale: u128 = if decimals == 0 { 1 } else { 10 };
    let num: u128 = bytes as u128 * scale;
    let q: u128 = num / (unit as u128);
    let rem: u128 = num % (unit as u128);
    assert(q <= num) by (nonlinear_arith)
        requires
            unit >= 1,
            q == num / (unit as u128),
    ;
    assert(rem < unit as u128);
    let t: u128 = if 2 * rem > unit as u128 || (2 * rem == unit as u128 && q % 2 == 1) { q + 1 } else { q };
    assert(t == rounded_scaled(bytes, unit, decimals as nat));
    if decimals == 0 {
        to_decimal_wide(t)
    } else {
        let mut r = to_decimal_wide(t / 10);
        push_char(&mut r, '.');
        push_char(&mut r, digit_wide(t % 10));
        r
    }
}

fn digit_wide(d: u128) -> (c: char)
    requires
        d < 10,
    ensures
        c == digit_char(d as nat),
{
    if d == 0 { '0' }
    else if d == 1 { '1' }
    else if d == 2 { '2' }
    else if d == 3 { '3' }
    else if d == 4 { '4' }
    else if d == 5 { '5' }
    else if d == 6 { '6' }
    else if d == 7 { '7' }
    else if d == 8 { '8' }
    else { '9' }
}

fn to_decimal_wide(n: u128) -> (r: String)
    ensures
        r@ == decimal(n as nat),
    decreases n,
{
    if n < 10 {
        let mut r = String::new();
        push_char(&mut r, digit_wide(n));
        assert(r@ =~= seq![digit_char(n as nat)]);
        r
    } else {
        let mut r = to_decimal_wide(n / 10);
        push_char(&mut r, digit_wide(n % 10));
        r
    }
}

/// What is known of a video.
#[derive(Clone, Debug, PartialEq, Eq)]
pub struct VideoMetadata {
    pub title: String,
    pub channel: Option<String>,
    pub duration: Option<String>,
    pub video_id: String,
    pub url: String,
}

pub const KB: u64 = 1024;
pub const MB: u64 = 1048576;
pub const GB: u64 = 1073741824;

/// A model of the local model server.
#[derive(Clone, Debug, PartialEq, Eq)]
pub struct ModelInfo {
    pub name: String,
    /// The size in bytes, where it is known.
    pub size: Option<u64>,
    pub available: bool,
}

/// The human-readable form of a size in bytes: one decimal in the largest
/// binary unit that fits, or whole bytes below a kibibyte.
pub open spec fn human_size(bytes: u64) -> Seq<char> {
    if bytes >= GB {
        rounded_text(bytes, GB, 1) + " GB"@
    } else if bytes >= MB {
        rounded_text(bytes, MB, 1) + " MB"@
    } else if bytes >= KB {
        rounded_text(bytes, KB, 1) + " KB"@
    } else {
        decimal(bytes as nat) + " bytes"@
    }
}

impl ModelInfo {
    /// The size in human-readable form, where it is known.
    pub fn size_human(&self) -> (r: Option<String>)
        ensures
            match self.size {
                Some(b) => r matches Some(t) && t@ == human_size(b),
                None => r is None,
            },
    {
        match self.size {
            None => None,
            Some(bytes) => {
                let text = if bytes >= GB {
                    let n = rounded_units(bytes, GB, 1);
                    concat(n.as_str(), " GB")
                } else if bytes >= MB {
                    let n = rounded_units(bytes, MB, 1);
                    concat(n.as_str(), " MB")
                } else if bytes >= KB {
                    let n = rounded_units(bytes, KB, 1);
                    concat(n.as_str(), " KB")
                } else {
                    let n = to_decimal(bytes);
                    concat(n.as_str(), " bytes")
                };
                Some(text)
            },
        }
    }
}

} // verus!
