//! The record that describes an image.

use crate::text::{decimal_text, digit_char, push_char, push_decimal};
use std::collections::HashMap;
use vstd::prelude::*;
use vstd::string::StringExecFns;

verus! {

/// An image as the engine lists it.
#[derive(Debug)]
pub struct Image {
    /// The full identifier, a SHA-256 hash.
    pub id: String,
    /// The repository, such as `nginx`.
    pub repository: String,
    /// The tag, such as `latest`.
    pub tag: String,
    pub digest: Option<String>,
    /// The size in bytes.
    pub size: u64,
    /// When the image was made, in ISO 8601.
    pub created: String,
    /// How many containers use the image.
    pub containers: u32,
    pub labels: HashMap<String, String>,
}

/// A size as it was written: a decimal number and the bytes that one
/// unit of it stands for. The number is kept as text, so that nothing is
/// lost before it is turned into bytes.
#[derive(Debug)]
pub struct SizeText {
    /// The digits and dots of the number, in the order written.
    pub number: String,
    /// The bytes of one unit.
    pub multiplier: u64,
}

/// The mathematical content of a [`SizeText`].
pub struct SizeTextView {
    pub number: Seq<char>,
    pub multiplier: nat,
}

impl View for SizeText {
    type V = SizeTextView;

    open spec fn view(&self) -> SizeTextView {
        SizeTextView { number: self.number@, multiplier: self.multiplier as nat }
    }
}

/// The quotient of `num` by `den` as the nearest whole number; where two
/// are equally near, the even one.
pub open spec fn round_half_even(num: nat, den: nat) -> nat
    recommends
        den > 0,
{
    let q = num / den;
    let r = num % den;
    if 2 * r > den || (2 * r == den && q % 2 == 1) {
        q + 1
    } else {
        q
    }
}

/// The step between the numbers near `n` that have no more than 53
/// binary digits: one below 2⁵³, and doubled with each further doubling.
pub open spec fn step_near(n: nat) -> nat
    decreases n,
{
    if n < 0x20_0000_0000_0000 {
        1
    } else {
        2 * step_near(n / 2)
    }
}

/// `n` as the nearest number of no more than 53 binary digits; where two
/// are equally near, the one whose last digit is even. This is the value
/// that a size has once it is taken as a binary floating-point number of
/// double precision.
pub open spec fn nearest_53_bits(n: nat) -> nat {
    round_half_even(n, step_near(n)) * step_near(n)
}

/// Which unit a size is written in: the largest of B, KB, MB, GB and TB
/// that is not above the size, counted from zero.
pub open spec fn unit_index(bytes: nat) -> nat {
    if bytes < 1024 {
        0
    } else if bytes < 1024 * 1024 {
        1
    } else if bytes < 1024 * 1024 * 1024 {
        2
    } else if bytes < 1024 * 1024 * 1024 * 1024 {
        3
    } else {
        4
    }
}

/// The bytes of the unit with the index `index`.
pub open spec fn unit_bytes(index: nat) -> nat {
    if index == 0 {
        1
    } else if index == 1 {
        1024
    } else if index == 2 {
        1024 * 1024
    } else if index == 3 {
        1024 * 1024 * 1024
    } else {
        1024 * 1024 * 1024 * 1024
    }
}

/// The name of the unit with the index `index`.
pub open spec fn unit_name(index: nat) -> Seq<char> {
    if index == 0 {
        "B"@
    } else if index == 1 {
        "KB"@
    } else if index == 2 {
        "MB"@
    } else if index == 3 {
        "GB"@
    } else {
        "TB"@
    }
}

/// The size in tenths of its unit, rounded to the nearest tenth and to
/// the even one where two are equally near.
pub open spec fn tenths(bytes: nat) -> nat {
    round_half_even(nearest_53_bits(bytes) * 10, unit_bytes(unit_index(bytes)))
}

/// A size as people read it: the bytes themselves below 1024, such as
/// `512 B`, and else the size in its unit with one digit after the point,
/// such as `1.5 KB`.
pub open spec fn formatted_bytes(bytes: nat) -> Seq<char> {
    if unit_index(bytes) == 0 {
        decimal_text(bytes) + " B"@
    } else {
        decimal_text(tenths(bytes) / 10) + seq!['.', digit_char(tenths(bytes) % 10)] + " "@
            + unit_name(unit_index(bytes))
    }
}

/// The quotient of `num` by `den` as the nearest whole number, the even
/// one where two are equally near.
fn divide_half_even(num: u128, den: u128) -> (q: u128)
    requires
        den > 0,
        den <= 0x1_0000_0000_0000_0000,
        num <= 0xFFFF_FFFF_FFFF_FFFF_FFFF_FFFF_FFFF_FFF0,
    ensures
        q == round_half_even(num as nat, den as nat),
{
    let q = num / den;
    let r = num % den;
    if 2 * r > den || (2 * r == den && q % 2 == 1) {
        q + 1
    } else {
        q
    }
}

/// A size as people read it, such as `512 B`, `1.5 KB` or `1.0 GB`.
pub fn format_bytes(bytes: u64) -> (s: String)
    ensures
        s@ == formatted_bytes(bytes as nat),
{
    let mut s = String::new();
    if bytes < 1024 {
        push_decimal(&mut s, bytes);
        s.append(" B");
        return s;
    }
    let (den, name): (u128, &str) = if bytes < 1024 * 1024 {
        (1024, "KB")
    } else if bytes < 1024 * 1024 * 1024 {
        (1024 * 1024, "MB")
    } else if bytes < 1024 * 1024 * 1024 * 1024 {
        (1024 * 1024 * 1024, "GB")
    } else {
        (1024 * 1024 * 1024 * 1024, "TB")
    };
    let mut m: u64 = bytes;
    let mut step: u128 = 1;
    while m >= 0x20_0000_0000_0000
        invariant
            step_near(bytes as nat) == step * step_near(m as nat),
            1 <= step <= 0x1000,
            m * step <= bytes,
        decreases m,
    {
        assert((m / 2) * (step * 2) <= m * step) by (nonlinear_arith)
            requires
                step >= 1,
        {
        }
        assert(step <= 0x800) by (nonlinear_arith)
            requires
                m * step <= bytes,
                m >= 0x20_0000_0000_0000,
                bytes <= 0xFFFF_FFFF_FFFF_FFFF,
                step >= 1,
        {
        }
        assert(step * (2 * step_near((m / 2) as nat)) == (step * 2) * step_near(
            (m / 2) as nat,
        )) by (nonlinear_arith);
        m = m / 2;
        step = step * 2;
    }
    assert(step_near(m as nat) == 1);
    assert(step == step_near(bytes as nat)) by (nonlinear_arith)
        requires
            step_near(bytes as nat) == step * step_near(m as nat),
            step_near(m as nat) == 1,
    {
    }
    let near: u128 = divide_half_even(bytes as u128, step);
    assert(near <= (bytes as int) / (step as int) + 1);
    assert(near * step <= bytes + step) by (nonlinear_arith)
        requires
            near <= (bytes as int) / (step as int) + 1,
            step >= 1,
            bytes >= 0,
            near >= 0,
    {
    }
    let rounded: u128 = near * step;
    let t: u128 = divide_half_even(rounded * 10, den);
    assert(t <= (rounded * 10) / (den as int) + 1);
    assert((rounded * 10) / (den as int) <= 0x1000_0000_0000_0000) by (nonlinear_arith)
        requires
            rounded <= 0x1_0000_0000_0000_1000,
            den >= 1024,
            rounded >= 0,
    {
    }
    let whole: u64 = (t / 10) as u64;
    let tenth: u8 = (t % 10) as u8;
    push_decimal(&mut s, whole);
    push_char(&mut s, '.');
    push_char(&mut s, (48u8 + tenth) as char);
    s.append(" ");
    s.append(name);
    assert(s@ =~= formatted_bytes(bytes as nat));
    s
}

impl Image {
    /// The size of the image as people read it, such as `136.2 MB`.
    pub fn formatted_size(&self) -> (s: String)
        ensures
            s@ == formatted_bytes(self.size as nat),
    {
        format_bytes(self.size)
    }
}

} // verus!
