//! Amounts of memory and processor time, the limits put on them, and a
//! snapshot of what a container has used.

use vstd::prelude::*;
use vstd::string::StringExecFns;
use core::cmp::Ordering;
use vstd::std_specs::cmp::PartialOrdSpec;
use vstd::std_specs::ops::{AddSpec, SubSpec};
use crate::text::{decimal, digit_char, push_decimal};

verus! {

/// The bytes in a kilobyte.
pub const KB: u64 = 1024;

/// The bytes in a megabyte.
pub const MB: u64 = 1_048_576;

/// The bytes in a gigabyte.
pub const GB: u64 = 1_073_741_824;

/// The length of the scheduling period, in microseconds.
pub const CPU_PERIOD_US: i64 = 100_000;

/// The number `n` where it fits in 64 bits, else the greatest that does.
pub open spec fn saturated(n: int) -> u64 {
    if n > u64::MAX {
        u64::MAX
    } else if n < 0 {
        0
    } else {
        n as u64
    }
}

/// The product of `a` and `b`, or the greatest number where it does not fit.
pub fn saturating_product(a: u64, b: u64) -> (r: u64)
    ensures
        r == saturated(a * b),
{
    match a.checked_mul(b) {
        Some(p) => p,
        None => u64::MAX,
    }
}

// ---------------------------------------------------------------------------
// Memory
// ---------------------------------------------------------------------------

/// A number of bytes. Sizes are ordered by their bytes.
#[derive(Debug, Clone, Copy, PartialEq, Eq, Structural, Ord, Hash)]
pub struct MemorySize(pub u64);

impl PartialOrd for MemorySize {
    /// How this size stands to `other`: as its bytes stand to the bytes of
    /// `other`.
    fn partial_cmp(&self, other: &MemorySize) -> (r: Option<Ordering>) {
        if self.0 < other.0 {
            Some(Ordering::Less)
        } else if self.0 == other.0 {
            Some(Ordering::Equal)
        } else {
            Some(Ordering::Greater)
        }
    }
}

impl vstd::std_specs::cmp::PartialOrdSpecImpl for MemorySize {
    open spec fn obeys_partial_cmp_spec() -> bool {
        true
    }

    open spec fn partial_cmp_spec(&self, other: &MemorySize) -> Option<Ordering> {
        if self.0 < other.0 {
            Some(Ordering::Less)
        } else if self.0 == other.0 {
            Some(Ordering::Equal)
        } else {
            Some(Ordering::Greater)
        }
    }
}

/// The order of sizes is the order of their bytes, and it is total: of two
/// sizes one is less than the other, or they are equal.
pub proof fn lemma_memory_order(a: MemorySize, b: MemorySize, c: MemorySize)
    ensures
        a.partial_cmp_spec(&b) is Some,
        a.partial_cmp_spec(&b) == Some(Ordering::Less) <==> a.0 < b.0,
        a.partial_cmp_spec(&b) == Some(Ordering::Equal) <==> a == b,
        a.partial_cmp_spec(&b) == Some(Ordering::Greater) <==> a.0 > b.0,
        a.partial_cmp_spec(&b) == Some(Ordering::Less) <==> b.partial_cmp_spec(&a) == Some(
            Ordering::Greater,
        ),
        a.partial_cmp_spec(&b) == Some(Ordering::Less) && b.partial_cmp_spec(&c) == Some(
            Ordering::Less,
        ) ==> a.partial_cmp_spec(&c) == Some(Ordering::Less),
{
}

/// Two to the power of 53: up to here every whole number is a double.
pub const DOUBLE_EXACT: u64 = 0x20_0000_0000_0000;

/// The distance between neighbouring doubles around `n`.
pub open spec fn double_step(n: nat) -> nat {
    if n < 0x20_0000_0000_0000 {
        1
    } else if n < 0x40_0000_0000_0000 {
        2
    } else if n < 0x80_0000_0000_0000 {
        4
    } else if n < 0x100_0000_0000_0000 {
        8
    } else if n < 0x200_0000_0000_0000 {
        16
    } else if n < 0x400_0000_0000_0000 {
        32
    } else if n < 0x800_0000_0000_0000 {
        64
    } else if n < 0x1000_0000_0000_0000 {
        128
    } else if n < 0x2000_0000_0000_0000 {
        256
    } else if n < 0x4000_0000_0000_0000 {
        512
    } else if n < 0x8000_0000_0000_0000 {
        1024
    } else {
        2048
    }
}

/// The quotient of `n` by `unit`, rounded to the nearest whole number, a
/// half to the even neighbour.
pub open spec fn rounded_quotient(n: nat, unit: nat) -> nat
    recommends
        unit > 0,
{
    let q = n / unit;
    let r = n % unit;
    if r * 2 > unit || (r * 2 == unit && q % 2 == 1) {
        q + 1
    } else {
        q
    }
}

/// The double nearest to the 64-bit number `n`, a tie going to the even
/// mantissa.
pub open spec fn nearest_double(n: nat) -> nat {
    rounded_quotient(n, double_step(n)) * double_step(n)
}

/// A number of hundredths written with two decimal places.
pub open spec fn two_places(h: nat) -> Seq<char> {
    decimal(h / 100) + seq!['.', digit_char((h / 10) % 10), digit_char(h % 10)]
}

/// How a number of bytes is shown: below a kilobyte as a count of bytes, else
/// in the largest of KB, MB and GB (powers of 1024) that it reaches, with two
/// decimal places. The places are those of the double nearest to the count,
/// divided by the unit and rounded half to even.
pub open spec fn memory_display(bytes: u64) -> Seq<char> {
    if bytes >= GB {
        two_places(rounded_quotient(nearest_double(bytes as nat) * 100, GB as nat)) + " GB"@
    } else if bytes >= MB {
        two_places(rounded_quotient(bytes as nat * 100, MB as nat)) + " MB"@
    } else if bytes >= KB {
        two_places(rounded_quotient(bytes as nat * 100, KB as nat)) + " KB"@
    } else {
        decimal(bytes as nat) + " bytes"@
    }
}

/// The distance between neighbouring doubles around `n`.
fn step_of(n: u64) -> (s: u64)
    ensures
        s == double_step(n as nat),
        1 <= s <= 2048,
{
    if n < 0x20_0000_0000_0000 {
        1
    } else if n < 0x40_0000_0000_0000 {
        2
    } else if n < 0x80_0000_0000_0000 {
        4
    } else if n < 0x100_0000_0000_0000 {
        8
    } else if n < 0x200_0000_0000_0000 {
        16
    } else if n < 0x400_0000_0000_0000 {
        32
    } else if n < 0x800_0000_0000_0000 {
        64
    } else if n < 0x1000_0000_0000_0000 {
        128
    } else if n < 0x2000_0000_0000_0000 {
        256
    } else if n < 0x4000_0000_0000_0000 {
        512
    } else if n < 0x8000_0000_0000_0000 {
        1024
    } else {
        2048
    }
}

/// Rounds the quotient of `n` by `unit` half to even.
fn round_quotient(n: u128, unit: u128) -> (q: u128)
    requires
        unit > 0,
        n < 0x1_0000_0000_0000_0000_0000_0000,
        unit < 0x1_0000_0000,
    ensures
        q == rounded_quotient(n as nat, unit as nat),
        q <= n + 1,
{
    let q = n / unit;
    let r = n % unit;
    assert(q <= n) by (nonlinear_arith)
        requires
            q == n / unit,
            unit > 0,
    ;
    assert(r < unit) by (nonlinear_arith)
        requires
            r == n % unit,
            unit > 0,
    ;
    if r * 2 > unit || (r * 2 == unit && q % 2 == 1) {
        q + 1
    } else {
        q
    }
}

/// Appends a number of hundredths, written with two decimal places.
fn push_two_places(s: &mut String, h: u64)
    ensures
        final(s)@ == old(s)@ + two_places(h as nat),
{
    push_decimal(s, h / 100);
    s.append(".");
    push_decimal(s, (h / 10) % 10);
    push_decimal(s, h % 10);
    proof {
        reveal_strlit(".");
        let tenths = ((h / 10) % 10) as nat;
        let last = (h % 10) as nat;
        assert(decimal(tenths) == seq![digit_char(tenths)]);
        assert(decimal(last) == seq![digit_char(last)]);
        assert("."@ + seq![digit_char(tenths)] + seq![digit_char(last)] =~= seq![
            '.',
            digit_char(tenths),
            digit_char(last),
        ]);
        assert(final(s)@ =~= old(s)@ + two_places(h as nat));
    }
}

impl MemorySize {
    /// The size of `bytes` bytes.
    pub fn from_bytes(bytes: u64) -> (m: MemorySize)
        ensures
            m.0 == bytes,
    {
        MemorySize(bytes)
    }

    /// The size of `kb` kilobytes, or the greatest size where that does not fit.
    pub fn from_kb(kb: u64) -> (m: MemorySize)
        ensures
            m.0 == saturated(kb * 1024),
    {
        MemorySize(saturating_product(kb, KB))
    }

    /// The size of `mb` megabytes, or the greatest size where that does not fit.
    pub fn from_mb(mb: u64) -> (m: MemorySize)
        ensures
            m.0 == saturated(mb * 1_048_576),
    {
        MemorySize(saturating_product(mb, MB))
    }

    /// The size of `gb` gigabytes, or the greatest size where that does not fit.
    pub fn from_gb(gb: u64) -> (m: MemorySize)
        ensures
            m.0 == saturated(gb * 1_073_741_824),
    {
        MemorySize(saturating_product(gb, GB))
    }

    /// The size in bytes.
    pub fn as_bytes(self) -> (bytes: u64)
        ensures
            bytes == self.0,
    {
        self.0
    }

    /// The sum of two sizes, or the greatest size where it does not fit.
    pub fn saturating_add(self, rhs: MemorySize) -> (m: MemorySize)
        ensures
            m.0 == saturated(self.0 + rhs.0),
    {
        MemorySize(self.0.saturating_add(rhs.0))
    }

    /// The difference of two sizes, or nothing where `rhs` is the larger.
    pub fn saturating_sub(self, rhs: MemorySize) -> (m: MemorySize)
        ensures
            m.0 == saturated(self.0 - rhs.0),
    {
        MemorySize(self.0.saturating_sub(rhs.0))
    }

    /// The size as it is shown to the user.
    pub fn to_string(&self) -> (s: String)
        ensures
            s@ == memory_display(self.0),
    {
        let bytes: u64 = self.0;
        let mut s = String::new();
        if bytes >= GB {
            let step = step_of(bytes);
            let mantissa = round_quotient(bytes as u128, step as u128);
            assert(mantissa * step <= 0x1_0000_0000_0000_0001 * 2048) by (nonlinear_arith)
                requires
                    mantissa <= 0x1_0000_0000_0000_0001,
                    step <= 2048,
            ;
            let double: u128 = mantissa * (step as u128);
            let h = round_quotient(double * 100, GB as u128);
            assert(h < 0x1_0000_0000_0000_0000) by {
                assert((double * 100) as int / 1_073_741_824 <= 0x1_0000_0000_0000_0001 * 204800
                    / 1_073_741_824);
            }
            push_two_places(&mut s, h as u64);
            s.append(" GB");
        } else if bytes >= MB {
            let h = round_quotient(bytes as u128 * 100, MB as u128);
            push_two_places(&mut s, h as u64);
            s.append(" MB");
        } else if bytes >= KB {
            let h = round_quotient(bytes as u128 * 100, KB as u128);
            push_two_places(&mut s, h as u64);
            s.append(" KB");
        } else {
            push_decimal(&mut s, bytes);
            s.append(" bytes");
        }
        assert(s@ =~= memory_display(bytes));
        s
    }
}

impl Default for MemorySize {
    /// No memory at all.
    fn default() -> (m: MemorySize)
        ensures
            m.0 == 0,
    {
        MemorySize(0)
    }
}

impl core::ops::Add for MemorySize {
    type Output = MemorySize;

    /// The sum of two sizes, or the greatest size where it does not fit.
    fn add(self, rhs: MemorySize) -> (m: MemorySize) {
        self.saturating_add(rhs)
    }
}

impl vstd::std_specs::ops::AddSpecImpl for MemorySize {
    open spec fn obeys_add_spec() -> bool {
        true
    }

    open spec fn add_req(self, rhs: MemorySize) -> bool {
        true
    }

    open spec fn add_spec(self, rhs: MemorySize) -> MemorySize {
        MemorySize(saturated(self.0 + rhs.0))
    }
}

impl core::ops::Sub for MemorySize {
    type Output = MemorySize;

    /// The difference of two sizes, or nothing where `rhs` is the larger.
    fn sub(self, rhs: MemorySize) -> (m: MemorySize) {
        self.saturating_sub(rhs)
    }
}

impl vstd::std_specs::ops::SubSpecImpl for MemorySize {
    open spec fn obeys_sub_spec() -> bool {
        true
    }

    open spec fn sub_req(self, rhs: MemorySize) -> bool {
        true
    }

    open spec fn sub_spec(self, rhs: MemorySize) -> MemorySize {
        MemorySize(saturated(self.0 - rhs.0))
    }
}

/// The sum of two sizes holds the lesser of the sum of their bytes and the
/// greatest 64-bit number.
pub proof fn lemma_memory_sum(a: MemorySize, b: MemorySize)
    ensures
        a.add_spec(b).0 == if a.0 + b.0 <= u64::MAX {
            a.0 + b.0
        } else {
            u64::MAX as int
        },
        a.add_spec(b) == b.add_spec(a),
{
}

/// The difference of two sizes holds the difference of their bytes, and
/// nothing where the second is the larger.
pub proof fn lemma_memory_difference(a: MemorySize, b: MemorySize)
    ensures
        a.sub_spec(b).0 == if a.0 >= b.0 {
            a.0 - b.0
        } else {
            0
        },
{
}

/// A size that reaches a unit is shown in that unit, and a whole number of
/// units below two to the power of 53 bytes with `.00` behind it.
pub proof fn lemma_display_whole_units(units: nat, unit: u64)
    requires
        unit == KB || unit == MB || unit == GB,
        units >= 1,
        units * unit < DOUBLE_EXACT,
        unit == KB ==> units * unit < MB,
        unit == MB ==> units * unit < GB,
    ensures
        memory_display((units * unit) as u64) == decimal(units) + seq!['.', '0', '0'] + (if unit
            == KB {
            " KB"@
        } else if unit == MB {
            " MB"@
        } else {
            " GB"@
        }),
{
    let bytes: nat = units * (unit as nat);
    assert(bytes * 100 == (units * 100) * unit) by (nonlinear_arith)
        requires
            bytes == units * unit,
    ;
    assert(bytes >= unit) by (nonlinear_arith)
        requires
            bytes == units * unit,
            units >= 1,
    ;
    vstd::arithmetic::div_mod::lemma_fundamental_div_mod_converse(
        (units * 100) * unit,
        unit as int,
        (units * 100) as int,
        0,
    );
    assert(rounded_quotient(bytes * 100, unit as nat) == units * 100);
    assert((units * 100) / 100 == units);
    assert(((units * 100) / 10) % 10 == 0);
    assert((units * 100) % 10 == 0);
    assert(nearest_double(bytes) == bytes) by {
        assert(double_step(bytes) == 1);
        assert(bytes / 1 == bytes && bytes % 1 == 0);
    }
}

// ---------------------------------------------------------------------------
// Processor time
// ---------------------------------------------------------------------------

/// A length of processor time, in whole microseconds.
#[derive(Debug, Clone, Copy, PartialEq, Eq, Structural, PartialOrd, Ord, Hash)]
pub struct CpuTime(pub u64);

impl CpuTime {
    /// The time of `micros` microseconds.
    pub fn from_micros(micros: u64) -> (t: CpuTime)
        ensures
            t.0 == micros,
    {
        CpuTime(micros)
    }

    /// The time of `millis` milliseconds, or the longest time where that does not fit.
    pub fn from_millis(millis: u64) -> (t: CpuTime)
        ensures
            t.0 == saturated(millis * 1000),
    {
        CpuTime(saturating_product(millis, 1000))
    }

    /// The time of `secs` seconds, or the longest time where that does not fit.
    pub fn from_secs(secs: u64) -> (t: CpuTime)
        ensures
            t.0 == saturated(secs * 1_000_000),
    {
        CpuTime(saturating_product(secs, 1_000_000))
    }

    /// The time in microseconds.
    pub fn as_micros(self) -> (micros: u64)
        ensures
            micros == self.0,
    {
        self.0
    }

    /// The whole milliseconds of the time.
    pub fn as_millis(self) -> (millis: u64)
        ensures
            millis == self.0 / 1000,
    {
        self.0 / 1000
    }

    /// The whole seconds of the time.
    pub fn as_secs(self) -> (secs: u64)
        ensures
            secs == self.0 / 1_000_000,
    {
        self.0 / 1_000_000
    }

    /// The two times together, or the longest time where that does not fit.
    pub fn saturating_add(self, rhs: CpuTime) -> (t: CpuTime)
        ensures
            t.0 == saturated(self.0 + rhs.0),
    {
        CpuTime(self.0.saturating_add(rhs.0))
    }

    /// The time as it is shown to the user.
    pub fn to_string(&self) -> (s: String)
        ensures
            s@ == time_display(self.0),
    {
        let micros: u64 = self.0;
        let mut s = String::new();
        if micros >= 1_000_000 {
            push_decimal(&mut s, micros / 1_000_000);
            push_fraction(&mut s, micros % 1_000_000, 100_000);
            s.append("s");
        } else if micros >= 1000 {
            push_decimal(&mut s, micros / 1000);
            push_fraction(&mut s, micros % 1000, 100);
            s.append("ms");
        } else if micros > 0 {
            push_decimal(&mut s, micros);
            s.append("\u{b5}s");
        } else {
            s.append("0ns");
        }
        assert(s@ =~= time_display(micros));
        s
    }
}

/// The digits of a fraction, the first worth `unit`, without the zeros at
/// its end.
pub open spec fn fraction_digits(fraction: nat, unit: nat) -> Seq<char>
    decreases unit,
{
    if fraction == 0 || unit == 0 {
        Seq::empty()
    } else {
        seq![digit_char(fraction / unit)] + fraction_digits(fraction % unit, unit / 10)
    }
}

/// A fraction behind its point; nothing where there is no fraction.
pub open spec fn fraction_text(fraction: nat, unit: nat) -> Seq<char> {
    if fraction == 0 {
        Seq::empty()
    } else {
        seq!['.'] + fraction_digits(fraction, unit)
    }
}

/// How a time is shown: in seconds from one second on, else in
/// milliseconds from one millisecond on, else in microseconds, each with as
/// many decimal places as it takes; and no time at all as `0ns`.
pub open spec fn time_display(micros: u64) -> Seq<char> {
    if micros >= 1_000_000 {
        decimal((micros / 1_000_000) as nat) + fraction_text(
            (micros % 1_000_000) as nat,
            100_000,
        ) + "s"@
    } else if micros >= 1000 {
        decimal((micros / 1000) as nat) + fraction_text((micros % 1000) as nat, 100) + "ms"@
    } else if micros > 0 {
        decimal(micros as nat) + "\u{b5}s"@
    } else {
        "0ns"@
    }
}

/// The worth of a decimal place, down to the sixth: a power of ten up to a
/// hundred thousand, and zero for the place behind the last.
pub open spec fn is_place(unit: nat) -> bool {
    unit == 0 || unit == 1 || unit == 10 || unit == 100 || unit == 1000 || unit == 10_000 || unit
        == 100_000
}

/// Appends the digits of a fraction.
fn push_fraction_digits(s: &mut String, fraction: u64, unit: u64)
    requires
        is_place(unit as nat),
        fraction < unit * 10 || fraction == 0,
    ensures
        final(s)@ == old(s)@ + fraction_digits(fraction as nat, unit as nat),
    decreases unit,
{
    if fraction == 0 || unit == 0 {
        assert(s@ =~= old(s)@ + Seq::<char>::empty());
    } else {
        let digit = fraction / unit;
        let rest = fraction % unit;
        assert(digit < 10 && is_place((unit / 10) as nat) && (rest < (unit / 10) * 10 || rest
            == 0)) by {
            if unit == 1 {
            } else if unit == 10 {
            } else if unit == 100 {
            } else if unit == 1000 {
            } else if unit == 10_000 {
            } else {
            }
        }
        push_decimal(s, digit);
        push_fraction_digits(s, rest, unit / 10);
        proof {
            assert(decimal(digit as nat) == seq![digit_char(digit as nat)]);
            assert(old(s)@ + seq![digit_char(digit as nat)] + fraction_digits(
                rest as nat,
                (unit / 10) as nat,
            ) =~= old(s)@ + (seq![digit_char(digit as nat)] + fraction_digits(
                rest as nat,
                (unit / 10) as nat,
            )));
        }
    }
}

/// Appends a fraction behind its point.
fn push_fraction(s: &mut String, fraction: u64, unit: u64)
    requires
        is_place(unit as nat),
        fraction < unit * 10,
    ensures
        final(s)@ == old(s)@ + fraction_text(fraction as nat, unit as nat),
{
    if fraction == 0 {
        assert(s@ =~= old(s)@ + Seq::<char>::empty());
    } else {
        s.append(".");
        push_fraction_digits(s, fraction, unit);
        proof {
            reveal_strlit(".");
            assert("."@ =~= seq!['.']);
            assert(old(s)@ + seq!['.'] + fraction_digits(fraction as nat, unit as nat) =~= old(s)@
                + (seq!['.'] + fraction_digits(fraction as nat, unit as nat)));
        }
    }
}

impl Default for CpuTime {
    /// No time at all.
    fn default() -> (t: CpuTime)
        ensures
            t.0 == 0,
    {
        CpuTime(0)
    }
}

// ---------------------------------------------------------------------------
// Limits
// ---------------------------------------------------------------------------

/// A share of the processors, counted in hundred-thousandths of one core:
/// the microseconds of processor time granted in each period of 100 000.
#[derive(Debug, Clone, Copy, PartialEq, Eq, Structural, PartialOrd, Ord, Hash)]
pub struct CpuCores(pub i64);

impl CpuCores {
    /// The share of `n` hundred-thousandths of a core.
    pub fn from_hundred_thousandths(n: i64) -> (c: CpuCores)
        ensures
            c.0 == n,
    {
        CpuCores(n)
    }

    /// The share of `cores` whole cores and `millis` thousandths of a core.
    pub fn from_millicores(cores: u32, millis: u32) -> (c: CpuCores)
        ensures
            c.0 == cores * 100_000 + millis * 100,
    {
        CpuCores((cores as i64) * 100_000 + (millis as i64) * 100)
    }

    /// The share in hundred-thousandths of a core.
    pub fn as_hundred_thousandths(self) -> (n: i64)
        ensures
            n == self.0,
    {
        self.0
    }

    /// The quota and the period, in microseconds, that grant this share.
    pub fn to_quota(self) -> (r: (i64, i64))
        ensures
            r.0 == self.0,
            r.1 == CPU_PERIOD_US,
    {
        (self.0, CPU_PERIOD_US)
    }
}

/// A limit on processor time.
#[derive(Debug, Clone, Copy, PartialEq, Eq, Structural)]
pub struct CpuLimit {
    /// The share of the processors that is granted.
    pub cores: CpuCores,
}

impl CpuLimit {
    /// The limit of `cores`.
    pub fn new(cores: CpuCores) -> (l: CpuLimit)
        ensures
            l.cores == cores,
    {
        CpuLimit { cores }
    }
}

/// A limit on memory.
#[derive(Debug, Clone, Copy, PartialEq, Eq, Structural)]
pub struct MemoryLimit {
    /// The most memory that may be used.
    pub limit: MemorySize,
    /// The most swap space that may be used, where that is limited.
    pub swap: Option<MemorySize>,
}

impl MemoryLimit {
    /// The limit of `limit`, with nothing said of swap space.
    pub fn new(limit: MemorySize) -> (l: MemoryLimit)
        ensures
            l.limit == limit,
            l.swap is None,
    {
        MemoryLimit { limit, swap: None }
    }

    /// The limit of `limit` on memory and of `swap` on swap space.
    pub fn with_swap(limit: MemorySize, swap: MemorySize) -> (l: MemoryLimit)
        ensures
            l.limit == limit,
            l.swap == Some(swap),
    {
        MemoryLimit { limit, swap: Some(swap) }
    }
}

// ---------------------------------------------------------------------------
// Usage
// ---------------------------------------------------------------------------

/// What a container has used, as read at one moment.
#[derive(Debug, Clone, Copy, PartialEq, Eq, Structural)]
pub struct ResourceStats {
    /// The processor time used so far.
    pub cpu_usage: CpuTime,
    /// The time spent held back by the processor limit.
    pub cpu_throttled: CpuTime,
    /// The memory in use.
    pub memory_current: MemorySize,
    /// The most memory that was in use.
    pub memory_peak: MemorySize,
    /// The swap space in use.
    pub swap_current: MemorySize,
    /// The most swap space that was in use.
    pub swap_peak: MemorySize,
    /// The bytes read from block devices.
    pub io_read_bytes: u64,
    /// The bytes written to block devices.
    pub io_write_bytes: u64,
}

impl ResourceStats {
    /// The snapshot in which nothing has been used.
    pub open spec fn zero() -> ResourceStats {
        ResourceStats {
            cpu_usage: CpuTime(0),
            cpu_throttled: CpuTime(0),
            memory_current: MemorySize(0),
            memory_peak: MemorySize(0),
            swap_current: MemorySize(0),
            swap_peak: MemorySize(0),
            io_read_bytes: 0,
            io_write_bytes: 0,
        }
    }

    /// No counter of `later` that only ever grows is below that of `self`:
    /// the processor time used and the two peaks.
    pub open spec fn not_after(self, later: ResourceStats) -> bool {
        &&& self.cpu_usage.0 <= later.cpu_usage.0
        &&& self.memory_peak.0 <= later.memory_peak.0
        &&& self.swap_peak.0 <= later.swap_peak.0
    }
}

impl Default for ResourceStats {
    /// The snapshot in which nothing has been used.
    fn default() -> (s: ResourceStats)
        ensures
            s == ResourceStats::zero(),
    {
        ResourceStats {
            cpu_usage: CpuTime(0),
            cpu_throttled: CpuTime(0),
            memory_current: MemorySize(0),
            memory_peak: MemorySize(0),
            swap_current: MemorySize(0),
            swap_peak: MemorySize(0),
            io_read_bytes: 0,
            io_write_bytes: 0,
        }
    }
}

} // verus!
