//! Rendering of unsigned byte counts: plain decimal digits, and a humanized
//! form scaled to the largest binary (1024-based) unit whose quantity is at
//! most 1023.

use vstd::prelude::*;

verus! {

/// The decimal digit character for a value below ten.
pub open spec fn dec_digit(d: nat) -> char {
    if d == 0 {
        '0'
    } else if d == 1 {
        '1'
    } else if d == 2 {
        '2'
    } else if d == 3 {
        '3'
    } else if d == 4 {
        '4'
    } else if d == 5 {
        '5'
    } else if d == 6 {
        '6'
    } else if d == 7 {
        '7'
    } else if d == 8 {
        '8'
    } else {
        '9'
    }
}

/// The decimal rendering of `n`, most significant digit first, with no
/// leading zeros (except for `n == 0`, rendered as "0").
pub open spec fn dec_str(n: nat) -> Seq<char>
    decreases n,
{
    if n < 10 {
        seq![dec_digit(n)]
    } else {
        dec_str(n / 10).push(dec_digit(n % 10))
    }
}

fn digit_str(d: u64) -> (s: &'static str)
    requires
        d < 10,
    ensures
        s@ == seq![dec_digit(d as nat)],
{
    proof {
        reveal_strlit("0");
        reveal_strlit("1");
        reveal_strlit("2");
        reveal_strlit("3");
        reveal_strlit("4");
        reveal_strlit("5");
        reveal_strlit("6");
        reveal_strlit("7");
        reveal_strlit("8");
        reveal_strlit("9");
    }
    let s: &'static str = if d == 0 {
        "0"
    } else if d == 1 {
        "1"
    } else if d == 2 {
        "2"
    } else if d == 3 {
        "3"
    } else if d == 4 {
        "4"
    } else if d == 5 {
        "5"
    } else if d == 6 {
        "6"
    } else if d == 7 {
        "7"
    } else if d == 8 {
        "8"
    } else {
        "9"
    };
    proof {
        assert(s@ =~= seq![dec_digit(d as nat)]);
    }
    s
}

/// Renders `n` in decimal.
pub fn u64_to_string(n: u64) -> (s: String)
    ensures
        s@ == dec_str(n as nat),
    decreases n,
{
    if n < 10 {
        String::from_str(digit_str(n))
    } else {
        let mut s = u64_to_string(n / 10);
        s.append(digit_str(n % 10));
        proof {
            assert(s@ =~= dec_str((n / 10) as nat).push(dec_digit((n % 10) as nat)));
        }
        s
    }
}

/// How many times a byte count is divided by 1024 until the quantity is at
/// most 1023: the unit level (0 bytes, 1 kilobytes, and so on).
pub open spec fn scale_level(n: nat) -> nat
    decreases n,
{
    if n > 1023 {
        scale_level(n / 1024) + 1
    } else {
        0
    }
}

/// The quantity left after scaling `n` down to its unit level, by truncating
/// division.
pub open spec fn scaled_quantity(n: nat) -> nat
    decreases n,
{
    if n > 1023 {
        scaled_quantity(n / 1024)
    } else {
        n
    }
}

/// The unit suffix for a given level. Levels past gigabytes get an explicit
/// marker instead of a fabricated unit name.
pub open spec fn unit_label(level: nat) -> Seq<char> {
    if level == 0 {
        "B"@
    } else if level == 1 {
        "KB"@
    } else if level == 2 {
        "MB"@
    } else if level == 3 {
        "GB"@
    } else {
        "unit overflow"@
    }
}

/// The humanized rendering of a byte count: the scaled quantity in decimal,
/// then the unit suffix of its level.
pub open spec fn human_size(n: nat) -> Seq<char> {
    dec_str(scaled_quantity(n)) + unit_label(scale_level(n))
}

/// A 64-bit byte count scales down to at most six levels.
proof fn lemma_scale_level_bounded(n: nat)
    requires
        n < 0x1_0000_0000_0000_0000,
    ensures
        scale_level(n) <= 6,
{
    let n1 = n / 1024;
    let n2 = n1 / 1024;
    let n3 = n2 / 1024;
    let n4 = n3 / 1024;
    let n5 = n4 / 1024;
    let n6 = n5 / 1024;
    assert(n6 <= 1023);
    assert(scale_level(n6) == 0);
    assert(scale_level(n5) <= 1);
    assert(scale_level(n4) <= 2);
    assert(scale_level(n3) <= 3);
    assert(scale_level(n2) <= 4);
    assert(scale_level(n1) <= 5);
    assert(scale_level(n) <= 6);
}

fn unit_str(level: u64) -> (s: &'static str)
    ensures
        s@ == unit_label(level as nat),
{
    if level == 0 {
        "B"
    } else if level == 1 {
        "KB"
    } else if level == 2 {
        "MB"
    } else if level == 3 {
        "GB"
    } else {
        "unit overflow"
    }
}

/// Renders a byte count scaled to the largest binary unit whose quantity is
/// at most 1023, dividing (and truncating) by 1024 at each step.
pub fn human_readable_byte_size(num: u64) -> (s: String)
    ensures
        s@ == human_size(num as nat),
{
    let mut n: u64 = num;
    let mut level: u64 = 0;
    proof {
        lemma_scale_level_bounded(num as nat);
    }
    while n > 1023
        invariant
            scaled_quantity(n as nat) == scaled_quantity(num as nat),
            scale_level(num as nat) == scale_level(n as nat) + level,
            scale_level(num as nat) <= 6,
        decreases n,
    {
        n = n / 1024;
        level = level + 1;
    }
    let mut s = u64_to_string(n);
    s.append(unit_str(level));
    s
}

/// Byte counts up to 1023 are rendered unscaled, with the plain byte unit.
pub proof fn lemma_small_counts_unscaled(b: nat)
    requires
        b <= 1023,
    ensures
        human_size(b) == dec_str(b) + "B"@,
{
}

/// Byte counts from 1024 through 1023 * 1024 scale exactly once: the
/// rendering is the truncating quotient by 1024, with the kilobyte unit.
pub proof fn lemma_kilobyte_range(b: nat)
    requires
        1024 <= b <= 1023 * 1024,
    ensures
        human_size(b) == dec_str(b / 1024) + "KB"@,
{
    assert(b / 1024 <= 1023);
    assert(scale_level(b) == scale_level(b / 1024) + 1);
    assert(scale_level(b / 1024) == 0);
    assert(scaled_quantity(b / 1024) == b / 1024);
    assert(scaled_quantity(b) == scaled_quantity(b / 1024));
}

} // verus!
