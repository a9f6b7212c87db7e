//! Drive-level status types shown by the desktop surfaces, and the
//! human-readable byte counts they display.

use vstd::prelude::*;
use vstd::arithmetic::div_mod::{lemma_div_denominator, lemma_mod_pos_bound, lemma_fundamental_div_mod};
use crate::text::{decimal, digit_char, signed_decimal, push_decimal, push_signed_decimal, push_str};

verus! {

/// `2^k`.
pub open spec fn pow2n(k: nat) -> nat
    decreases k,
{
    if k == 0 {
        1
    } else {
        2 * pow2n((k - 1) as nat)
    }
}

/// Largest integer below which every integer is exactly an `f64` (`2^53`).
pub const F64_EXACT_LIMIT: u64 = 0x20_0000_0000_0000;

/// How many halvings bring `b` below `2^53`: the bits an `f64` has to drop.
pub open spec fn f64_dropped_bits(b: nat) -> nat
    decreases b,
{
    if b < F64_EXACT_LIMIT {
        0
    } else {
        1 + f64_dropped_bits(b / 2)
    }
}

/// `b` rounded to a multiple of `m`, ties to the even multiple.
pub open spec fn round_to_multiple_even(b: nat, m: nat) -> nat
    recommends
        m > 0,
{
    let q = b / m;
    let r = b % m;
    if 2 * r > m || (2 * r == m && q % 2 == 1) {
        (q + 1) * m
    } else {
        q * m
    }
}

/// The value of `b as f64` for a non-negative integer: the nearest number with
/// a 53-bit significand, ties to even.
pub open spec fn nearest_f64(b: nat) -> nat {
    round_to_multiple_even(b, pow2n(f64_dropped_bits(b)))
}

/// `f / unit` rounded to one decimal place, ties to even: the integer part and
/// the tenths digit.
pub open spec fn one_decimal(f: nat, unit: nat) -> (nat, nat)
    recommends
        unit > 0,
{
    let q = f / unit;
    let r = f % unit;
    let t = (10 * r) / unit;
    let rem = (10 * r) % unit;
    let up = 2 * rem > unit || (2 * rem == unit && t % 2 == 1);
    if up {
        if t == 9 {
            (q + 1, 0)
        } else {
            (q, t + 1)
        }
    } else {
        (q, t)
    }
}

/// `"{int}.{tenth} {suffix}"` for `f / unit`.
pub open spec fn scaled_text(f: nat, unit: nat, suffix: Seq<char>) -> Seq<char> {
    let (q, t) = one_decimal(f, unit);
    decimal(q) + seq!['.', digit_char(t as int), ' '] + suffix
}

pub const KIB: u64 = 1024;
pub const MIB: u64 = 1024 * 1024;
pub const GIB: u64 = 1024 * 1024 * 1024;
pub const TIB: u64 = 1024 * 1024 * 1024 * 1024;

/// What `format_bytes` shows: the count in the largest binary unit it reaches,
/// with one decimal, or the plain count of bytes below one KB.
pub open spec fn format_bytes_text(bytes: int) -> Seq<char> {
    if bytes < KIB {
        signed_decimal(bytes) + " B"@
    } else {
        let f = nearest_f64(bytes as nat);
        if f >= TIB {
            scaled_text(f, TIB as nat, "TB"@)
        } else if f >= GIB {
            scaled_text(f, GIB as nat, "GB"@)
        } else if f >= MIB {
            scaled_text(f, MIB as nat, "MB"@)
        } else {
            scaled_text(f, KIB as nat, "KB"@)
        }
    }
}

/// Rounds a non-negative `i64` as the conversion to `f64` does.
fn nearest_f64_exec(b: u64) -> (r: u64)
    requires
        b < 0x8000_0000_0000_0000,
    ensures
        r as nat == nearest_f64(b as nat),
        r <= b + 0x800,
{
    let mut t: u64 = b;
    let mut m: u64 = 1;
    let ghost mut k: nat = 0;
    while t >= F64_EXACT_LIMIT
        invariant
            b < 0x8000_0000_0000_0000,
            m == pow2n(k),
            1 <= m,
            m <= 0x800,
            t as nat == (b as nat) / (m as nat),
            (m as int) * (t as int) <= b,
            f64_dropped_bits(b as nat) == k + f64_dropped_bits(t as nat),
        decreases t,
    {
        proof {
            lemma_div_denominator(b as int, m as int, 2);
            assert(m < 0x400) by (nonlinear_arith)
                requires
                    (m as int) * (t as int) <= b,
                    t >= F64_EXACT_LIMIT,
                    b < 0x8000_0000_0000_0000,
            ;
            assert((2 * m as int) * ((t / 2) as int) <= b) by (nonlinear_arith)
                requires
                    (m as int) * (t as int) <= b,
                    m >= 1,
            ;
        }
        t = t / 2;
        m = m * 2;
        proof {
            k = k + 1;
        }
    }
    proof {
        lemma_mod_pos_bound(b as int, m as int);
        lemma_fundamental_div_mod(b as int, m as int);
    }
    let q = b / m;
    let r = b % m;
    if 2 * r > m || (2 * r == m && q % 2 == 1) {
        assert((q + 1) * m <= b + m) by (nonlinear_arith)
            requires
                q * m + r == b,
        ;
        (q + 1) * m
    } else {
        assert(q * m <= b) by (nonlinear_arith)
            requires
                q * m + r == b,
                r >= 0,
        ;
        q * m
    }
}

/// Appends `"{int}.{tenth} "` for `f / unit`, then the suffix.
fn push_scaled(out: &mut String, f: u64, unit: u64, suffix: &str)
    requires
        KIB <= unit <= TIB,
    ensures
        final(out)@ == old(out)@ + scaled_text(f as nat, unit as nat, suffix@),
{
    proof {
        lemma_mod_pos_bound(f as int, unit as int);
    }
    let q = f / unit;
    let r = f % unit;
    let ten_r = 10 * r;
    proof {
        lemma_mod_pos_bound(ten_r as int, unit as int);
    }
    let t = ten_r / unit;
    let rem = ten_r % unit;
    assert(t < 10) by (nonlinear_arith)
        requires
            r < unit,
            ten_r == 10 * r,
            t == ten_r / unit,
            unit >= 1,
    ;
    let up = 2 * rem > unit || (2 * rem == unit && t % 2 == 1);
    let (qi, ti) = if up {
        if t == 9 {
            assert(q + 1 <= u64::MAX) by (nonlinear_arith)
                requires
                    q == f / unit,
                    unit >= 1024,
                    f <= u64::MAX,
            ;
            (q + 1, 0u64)
        } else {
            (q, t + 1)
        }
    } else {
        (q, t)
    };
    push_decimal(out, qi);
    out.push('.');
    out.push(((ti as u8) + 48) as char);
    out.push(' ');
    push_str(out, suffix);
    assert(final(out)@ =~= old(out)@ + scaled_text(f as nat, unit as nat, suffix@));
}

/// Formats a byte count for display, e.g. `1.5 GB`; below one KB the exact
/// count is shown, e.g. `512 B`.
pub fn format_bytes(bytes: i64) -> (r: String)
    ensures
        r@ == format_bytes_text(bytes as int),
{
    let mut out = String::new();
    if bytes < 1024 {
        push_signed_decimal(&mut out, bytes);
        push_str(&mut out, " B");
        assert(out@ =~= format_bytes_text(bytes as int));
        return out;
    }
    let f = nearest_f64_exec(bytes as u64);
    if f >= TIB {
        push_scaled(&mut out, f, TIB, "TB");
    } else if f >= GIB {
        push_scaled(&mut out, f, GIB, "GB");
    } else if f >= MIB {
        push_scaled(&mut out, f, MIB, "MB");
    } else {
        push_scaled(&mut out, f, KIB, "KB");
    }
    assert(out@ =~= format_bytes_text(bytes as int));
    out
}

/// Storage use of a drive, for display.
#[derive(Debug, Clone)]
pub struct CapacitySummary {
    pub total: i64,
    pub used: i64,
    pub label: String,
}

/// Sync state of a drive, for display.
#[derive(Debug, Clone, Copy, PartialEq, Eq, Structural)]
pub enum SyncStatus {
    InSync,
    Syncing,
    Paused,
    Error,
}

/// What desktop surfaces show about one drive.
#[derive(Debug, Clone)]
pub struct DriveStatusUI {
    pub name: String,
    pub raw_icon_path: Option<String>,
    pub capacity: Option<CapacitySummary>,
    pub profile_url: String,
    pub settings_url: String,
    pub storage_url: String,
    pub sync_status: SyncStatus,
    pub active_task_count: usize,
}

/// State of a drive in the settings window.
#[derive(Debug, Clone, Copy, PartialEq, Eq, Structural)]
pub enum DriveInfoStatus {
    /// Active and synced.
    Active,
    /// The event push subscription was lost.
    EventPushLost,
    /// The credentials have expired.
    CredentialExpired,
}

/// A drive as the settings window lists it.
#[derive(Debug, Clone)]
pub struct DriveInfo {
    pub id: String,
    pub name: String,
    pub instance_url: String,
    pub remote_path: String,
    pub sync_path: String,
    /// Path to the ICO icon.
    pub icon_path: Option<String>,
    /// Path to the icon image in its original format.
    pub raw_icon_path: Option<String>,
    pub enabled: bool,
    pub user_id: String,
    pub status: DriveInfoStatus,
    pub capacity: Option<CapacitySummary>,
}

} // verus!
