//! Human-readable labels: file sizes, file ages, item counts and share links.
use vstd::prelude::*;
use vstd::string::StringExecFns;
use vstd::string::StringSliceAdditionalSpecFns;
use crate::text::decimal;
use crate::text::decimal_string;
use crate::text::digit_char;
use crate::text::hex_digits;
use crate::text::hex16_string;
use crate::text::push_char;
use crate::hash::fnv_hash;
use crate::hash::fnv_spec;

verus! {

// ─── file sizes ─────────────────────────────────────────────────────────────

/// 1024 to the power `k`.
pub open spec fn pow1024(k: nat) -> nat
    decreases k,
{
    if k == 0 {
        1
    } else {
        1024 * pow1024((k - 1) as nat)
    }
}

/// The power of two that is the spacing of `f64` values around `b`
/// (1 below 2^53).
pub open spec fn f64_spacing(b: nat) -> nat
    decreases b,
{
    if b < 0x20_0000_0000_0000 {
        1
    } else {
        2 * f64_spacing(b / 2)
    }
}

/// `n / d` rounded to the nearest integer, ties to the even one.
pub open spec fn div_round_even(n: nat, d: nat) -> nat {
    let q = n / d;
    let r = n % d;
    if 2 * r > d || (2 * r == d && q % 2 == 1) {
        q + 1
    } else {
        q
    }
}

/// The value `bytes as f64` holds: `bytes` rounded to 53 significant bits,
/// ties to even.
pub open spec fn f64_value(bytes: nat) -> nat {
    div_round_even(bytes, f64_spacing(bytes)) * f64_spacing(bytes)
}

/// The unit a size is shown in: the number of times it can be divided by
/// 1024 while it stays at least 1024, at most 4 (TB).
pub open spec fn unit_index(b: nat, k: nat) -> nat
    decreases 4 - k,
{
    if k < 4 && b >= pow1024(k + 1) {
        unit_index(b, k + 1)
    } else {
        k
    }
}

/// Name of the size unit with index `k`.
pub open spec fn unit_name(k: nat) -> Seq<char> {
    if k == 0 {
        "B"@
    } else if k == 1 {
        "KB"@
    } else if k == 2 {
        "MB"@
    } else if k == 3 {
        "GB"@
    } else {
        "TB"@
    }
}

/// The size label: whole bytes below 1 KB ("512 B"), otherwise the size in
/// the largest unit up to TB with two decimals, rounded half to even
/// ("1.50 KB").
pub open spec fn size_label(bytes: nat) -> Seq<char> {
    let b = f64_value(bytes);
    let k = unit_index(b, 0);
    if k == 0 {
        decimal(b) + " "@ + unit_name(0)
    } else {
        let q = div_round_even(b * 100, pow1024(k));
        decimal(q / 100) + "."@ + seq![digit_char((q / 10) % 10), digit_char(q % 10)] + " "@ + unit_name(k)
    }
}

proof fn lemma_pow1024_values()
    ensures
        pow1024(0) == 1,
        pow1024(1) == 0x400,
        pow1024(2) == 0x10_0000,
        pow1024(3) == 0x4000_0000,
        pow1024(4) == 0x100_0000_0000,
        pow1024(5) == 0x4_0000_0000_0000,
{
    reveal_with_fuel(pow1024, 6);
}

fn unit_text(k: usize) -> (s: &'static str)
    requires
        k <= 4,
    ensures
        s@ == unit_name(k as nat),
{
    if k == 0 {
        "B"
    } else if k == 1 {
        "KB"
    } else if k == 2 {
        "MB"
    } else if k == 3 {
        "GB"
    } else {
        "TB"
    }
}

fn round_even_div(n: u128, d: u128) -> (q: u128)
    requires
        d > 0,
        n / d + 1 <= u128::MAX,
    ensures
        q == div_round_even(n as nat, d as nat),
        q <= n / d + 1,
{
    let q = n / d;
    let r = n % d;
    if r > d - r || (r == d - r && q % 2 == 1) {
        q + 1
    } else {
        q
    }
}

/// Formats a byte count as the file list shows it, e.g. "512 B", "1.50 KB",
/// "3.00 GB".
pub fn format_size(bytes: u64) -> (s: String)
    ensures
        s@ == size_label(bytes as nat),
{
    // the spacing of f64 values at `bytes`
    let mut spacing: u128 = 1;
    let mut t: u64 = bytes;
    while t >= 0x20_0000_0000_0000
        invariant
            f64_spacing(bytes as nat) == spacing * f64_spacing(t as nat),
            spacing * t <= bytes,
            1 <= spacing <= 0x1000,
        decreases t,
    {
        proof {
            assert(spacing <= 0x800) by (nonlinear_arith)
                requires
                    spacing * t <= bytes,
                    t >= 0x20_0000_0000_0000,
                    bytes <= u64::MAX,
            ;
            assert(spacing * 2 * (t / 2) <= spacing * t) by (nonlinear_arith)
                requires
                    spacing >= 1,
            ;
            assert(spacing * (2 * f64_spacing((t / 2) as nat)) == (spacing * 2) * f64_spacing((t / 2) as nat)) by (nonlinear_arith);
        }
        spacing = spacing * 2;
        t = t / 2;
    }
    let q0 = round_even_div(bytes as u128, spacing);
    proof {
        assert(f64_spacing(t as nat) == 1);
        assert(q0 * spacing <= bytes + spacing) by (nonlinear_arith)
            requires
                q0 <= (bytes as u128) / spacing + 1,
                spacing >= 1,
        ;
    }
    let b: u128 = q0 * spacing;
    proof {
        let fs = f64_spacing(t as nat);
        assert(f64_spacing(bytes as nat) == spacing) by (nonlinear_arith)
            requires
                f64_spacing(bytes as nat) == spacing * fs,
                fs == 1,
        ;
        assert(q0 == div_round_even(bytes as nat, f64_spacing(bytes as nat)));
        assert(b as nat == f64_value(bytes as nat));
    }
    // largest unit, at most TB
    let mut k: usize = 0;
    let mut unit: u128 = 1;
    proof {
        lemma_pow1024_values();
    }
    while k < 4 && b >= unit * 1024
        invariant
            k <= 4,
            unit == pow1024(k as nat),
            unit_index(b as nat, 0) == unit_index(b as nat, k as nat),
            k > 0 ==> b >= unit,
            b <= u64::MAX + 0x1000,
            pow1024(0) == 1,
            pow1024(1) == 0x400,
            pow1024(2) == 0x10_0000,
            pow1024(3) == 0x4000_0000,
            pow1024(4) == 0x100_0000_0000,
            pow1024(5) == 0x4_0000_0000_0000,
        decreases 4 - k,
    {
        unit = unit * 1024;
        k = k + 1;
    }
    let mut s;
    if k == 0 {
        s = decimal_string(b as u64);
        s.append(" ");
        s.append(unit_text(0));
    } else {
        let q = round_even_div(b * 100, unit);
        proof {
            assert(((b * 100) as int) / (unit as int) <= ((b * 100) as int) / 1024) by (nonlinear_arith)
                requires
                    unit >= 1024,
            ;
        }
        s = decimal_string((q / 100) as u64);
        s.append(".");
        push_char(&mut s, digit_u128((q / 10) % 10));
        push_char(&mut s, digit_u128(q % 10));
        s.append(" ");
        s.append(unit_text(k));
    }
    s
}

fn digit_u128(d: u128) -> (c: char)
    requires
        d < 10,
    ensures
        c == digit_char(d as nat),
{
    ((d as u8) + 48u8) as char
}

// ─── file ages ──────────────────────────────────────────────────────────────

/// How long ago a file was modified, as the details view shows it, given its
/// modification time (nanoseconds since the Unix epoch) and the current time
/// in whole seconds since the epoch. Times before the epoch, or none at all,
/// read "Unknown".
pub open spec fn age_label(modified: Option<i128>, now_secs: nat) -> Seq<char> {
    match modified {
        None => "Unknown"@,
        Some(t) => if t < 0 {
            "Unknown"@
        } else {
            let secs = (t as int / 1_000_000_000) as nat;
            let diff: nat = if now_secs >= secs { (now_secs - secs) as nat } else { 0 };
            if diff < 60 {
                "Just now"@
            } else if diff < 3600 {
                decimal(diff / 60) + " min ago"@
            } else if diff < 86400 {
                decimal(diff / 3600) + " hours ago"@
            } else if diff < 604800 {
                decimal(diff / 86400) + " days ago"@
            } else {
                decimal(diff / 604800) + " weeks ago"@
            }
        },
    }
}

/// Formats a modification time relative to `now_secs`.
pub fn format_time(modified: Option<i128>, now_secs: u64) -> (s: String)
    ensures
        s@ == age_label(modified, now_secs as nat),
{
    match modified {
        None => String::from_str("Unknown"),
        Some(t) => {
            if t < 0 {
                return String::from_str("Unknown");
            }
            let secs_wide: i128 = t / 1_000_000_000;
            let secs: u64 = if secs_wide > u64::MAX as i128 { u64::MAX } else { secs_wide as u64 };
            let diff: u64 = if now_secs >= secs { now_secs - secs } else { 0 };
            proof {
                if secs_wide > u64::MAX as i128 {
                    assert(diff == 0);
                }
            }
            if diff < 60 {
                String::from_str("Just now")
            } else if diff < 3600 {
                let mut s = decimal_string(diff / 60);
                s.append(" min ago");
                s
            } else if diff < 86400 {
                let mut s = decimal_string(diff / 3600);
                s.append(" hours ago");
                s
            } else if diff < 604800 {
                let mut s = decimal_string(diff / 86400);
                s.append(" days ago");
                s
            } else {
                let mut s = decimal_string(diff / 604800);
                s.append(" weeks ago");
                s
            }
        },
    }
}

// ─── small labels ───────────────────────────────────────────────────────────

/// "1 item", "0 items", "5 items".
pub open spec fn item_count_text(n: nat) -> Seq<char> {
    decimal(n) + " item"@ + (if n == 1 { ""@ } else { "s"@ })
}

/// The status-bar count of shown entries.
pub fn item_count_label(n: usize) -> (s: String)
    ensures
        s@ == item_count_text(n as nat),
{
    let mut s = decimal_string(n as u64);
    s.append(" item");
    if n == 1 {
        s.append("");
    } else {
        s.append("s");
    }
    s
}

/// The share link of a file name: "anvel://share/" and the 16 hex digits of
/// the hash of the name's UTF-8 bytes.
pub open spec fn share_link_text(name: Seq<char>) -> Seq<char> {
    "anvel://share/"@ + hex_digits(fnv_spec(vstd::utf8::encode_utf8(name)) as nat, 16)
}

/// Builds the share link for a file name.
pub fn share_link(name: &str) -> (s: String)
    ensures
        s@ == share_link_text(name@),
{
    let h = fnv_hash(name);
    let mut s = String::from_str("anvel://share/");
    let hex = hex16_string(h);
    s.append(hex.as_str());
    s
}

} // verus!
