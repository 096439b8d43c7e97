//! The Observatory's vocabulary: how sure a reading is, which component it
//! belongs to, sampled instructions, and byte counts for display.
use vstd::prelude::*;

use crate::text::{byte_hex_upper, decimal, digit_of, push_char, push_str, upper_digit_of};

verus! {

/// How directly a value was obtained.
#[derive(Debug, Clone, Copy, PartialEq, Eq, Structural)]
pub enum TruthLevel {
    Observed,
    Sampled,
    Inferred,
    Schematic,
}

impl TruthLevel {
    pub open spec fn spec_glyph(self) -> Seq<char> {
        match self {
            TruthLevel::Observed => "●"@,
            TruthLevel::Sampled => "◉"@,
            TruthLevel::Inferred => "≈"@,
            TruthLevel::Schematic => "◇"@,
        }
    }

    pub open spec fn spec_label(self) -> Seq<char> {
        match self {
            TruthLevel::Observed => "OBSERVED"@,
            TruthLevel::Sampled => "SAMPLED"@,
            TruthLevel::Inferred => "INFERRED"@,
            TruthLevel::Schematic => "SCHEMATIC"@,
        }
    }

    pub fn glyph(self) -> (r: &'static str)
        ensures
            r@ == self.spec_glyph(),
    {
        match self {
            TruthLevel::Observed => "●",
            TruthLevel::Sampled => "◉",
            TruthLevel::Inferred => "≈",
            TruthLevel::Schematic => "◇",
        }
    }

    pub fn label(self) -> (r: &'static str)
        ensures
            r@ == self.spec_label(),
    {
        match self {
            TruthLevel::Observed => "OBSERVED",
            TruthLevel::Sampled => "SAMPLED",
            TruthLevel::Inferred => "INFERRED",
            TruthLevel::Schematic => "SCHEMATIC",
        }
    }
}

/// A hardware component that the Observatory shows.
#[derive(Debug, Clone, Copy, PartialEq, Eq, Structural)]
pub enum ComponentId {
    Cpu,
    Memory,
    Gpu,
    Npu,
    Storage,
    Network,
}

impl ComponentId {
    pub open spec fn spec_label(self) -> Seq<char> {
        match self {
            ComponentId::Cpu => "CPU"@,
            ComponentId::Memory => "MEMORY"@,
            ComponentId::Gpu => "GPU"@,
            ComponentId::Npu => "NPU"@,
            ComponentId::Storage => "NVMe"@,
            ComponentId::Network => "NETWORK"@,
        }
    }

    pub fn label(self) -> (r: &'static str)
        ensures
            r@ == self.spec_label(),
    {
        match self {
            ComponentId::Cpu => "CPU",
            ComponentId::Memory => "MEMORY",
            ComponentId::Gpu => "GPU",
            ComponentId::Npu => "NPU",
            ComponentId::Storage => "NVMe",
            ComponentId::Network => "NETWORK",
        }
    }
}

/// The instruction set of a sampled instruction.
#[derive(Debug, Clone, Copy, PartialEq, Eq, Structural)]
pub enum InstructionArchitecture {
    X86_64,
    NvidiaSass,
    Unknown,
}

impl InstructionArchitecture {
    pub open spec fn spec_label(self) -> Seq<char> {
        match self {
            InstructionArchitecture::X86_64 => "x86-64"@,
            InstructionArchitecture::NvidiaSass => "NVIDIA SASS"@,
            InstructionArchitecture::Unknown => "unknown ISA"@,
        }
    }

    pub fn label(self) -> (r: &'static str)
        ensures
            r@ == self.spec_label(),
    {
        match self {
            InstructionArchitecture::X86_64 => "x86-64",
            InstructionArchitecture::NvidiaSass => "NVIDIA SASS",
            InstructionArchitecture::Unknown => "unknown ISA",
        }
    }
}

/// One sampled machine instruction.
///
/// Its age is kept in nanoseconds, as the sampler measures it; the display
/// turns it into seconds.
#[derive(Debug, Clone)]
pub struct InstructionSample {
    /// Monotonically increasing identifier for the sample stream.
    pub sequence: u64,
    /// How much older this sample is than the newest of its batch.
    pub age_nanos: u64,
    /// Activity context used to filter the stream.
    pub component: ComponentId,
    /// Provenance of the instruction information.
    pub truth: TruthLevel,
    pub pid: u32,
    pub tid: u32,
    pub process_name: String,
    /// Logical CPU where the sampled thread was observed, when known.
    pub cpu_id: Option<usize>,
    pub architecture: InstructionArchitecture,
    pub address: u64,
    /// Raw instruction bytes when the source provides them.
    pub bytes: Vec<u8>,
    pub mnemonic: String,
    pub operands: String,
    /// How the sample relates to the component or was obtained.
    pub note: Option<String>,
}

/// Bytes as upper-case hex pairs separated by single spaces.
pub open spec fn spaced_hex(bytes: Seq<u8>) -> Seq<char>
    decreases bytes.len(),
{
    if bytes.len() == 0 {
        Seq::empty()
    } else if bytes.len() == 1 {
        byte_hex_upper(bytes[0])
    } else {
        spaced_hex(bytes.drop_last()) + seq![' '] + byte_hex_upper(bytes.last())
    }
}

impl InstructionSample {
    /// The raw bytes, `{:02X}` each, joined by spaces.
    pub fn bytes_hex(&self) -> (r: String)
        ensures
            r@ == spaced_hex(self.bytes@),
    {
        let mut r = String::new();
        let mut i: usize = 0;
        while i < self.bytes.len()
            invariant
                i <= self.bytes.len(),
                r@ == spaced_hex(self.bytes@.take(i as int)),
            decreases self.bytes.len() - i,
        {
            let b = self.bytes[i];
            if i > 0 {
                push_char(&mut r, ' ');
            }
            push_char(&mut r, upper_digit_of((b / 16) as u64));
            push_char(&mut r, upper_digit_of((b % 16) as u64));
            assert(self.bytes@.take(i + 1).drop_last() =~= self.bytes@.take(i as int));
            if i == 0 {
                assert(r@ =~= byte_hex_upper(b));
            } else {
                assert(r@ =~= spaced_hex(self.bytes@.take(i as int)) + seq![' '] + byte_hex_upper(b));
            }
            i += 1;
        }
        assert(self.bytes@.take(self.bytes.len() as int) =~= self.bytes@);
        r
    }

    /// The mnemonic, followed by a space and the operands where there are any.
    pub fn assembly(&self) -> (r: String)
        ensures
            self.operands@.len() == 0 ==> r@ == self.mnemonic@,
            self.operands@.len() > 0 ==> r@ == self.mnemonic@ + seq![' '] + self.operands@,
    {
        let mut r = self.mnemonic.clone();
        if !self.operands.as_str().is_empty() {
            push_char(&mut r, ' ');
            push_str(&mut r, self.operands.as_str());
            assert(r@ =~= self.mnemonic@ + seq![' '] + self.operands@);
        }
        r
    }
}

/// Memory counters of a machine.
#[derive(Debug, Clone, Copy, PartialEq, Eq, Structural)]
pub struct MemorySnapshot {
    pub total_bytes: u64,
    pub used_bytes: u64,
    pub available_bytes: u64,
    pub cached_bytes: u64,
    pub active_bytes: u64,
    pub dirty_bytes: u64,
    pub page_faults_per_second: u64,
}

/// Number of binary digits of `n`.
pub open spec fn bit_len(n: nat) -> nat
    decreases n,
{
    if n == 0 {
        0
    } else {
        1 + bit_len(n / 2)
    }
}

pub open spec fn two_pow(e: nat) -> nat
    decreases e,
{
    if e == 0 {
        1
    } else {
        2 * two_pow((e - 1) as nat)
    }
}

/// `n / d` rounded to the nearest integer, ties to the even one.
pub open spec fn round_half_even(n: nat, d: nat) -> nat
    recommends
        d > 0,
{
    let q = n / d;
    let r = n % d;
    if 2 * r > d {
        q + 1
    } else if 2 * r < d {
        q
    } else if q % 2 == 1 {
        q + 1
    } else {
        q
    }
}

/// The value of `n as f64`: exact below 2^53, otherwise rounded to 53
/// significant bits, ties to even.
pub open spec fn as_f64(n: nat) -> nat {
    if n < 0x20_0000_0000_0000 {
        n
    } else {
        let e = (bit_len(n) - 53) as nat;
        round_half_even(n, two_pow(e)) * two_pow(e)
    }
}

/// A byte count in the largest binary unit it reaches, with two decimals
/// rounded half to even (as `{:.2}` rounds the exact value), or in bytes.
pub open spec fn spec_format_bytes(bytes: u64) -> Seq<char> {
    let v = as_f64(bytes as nat);
    if bytes < 1024 {
        decimal(bytes as nat) + " B"@
    } else {
        let (d, unit) = if bytes >= 0x100_0000_0000 {
            (0x100_0000_0000nat, " TiB"@)
        } else if bytes >= 0x4000_0000 {
            (0x4000_0000nat, " GiB"@)
        } else if bytes >= 0x10_0000 {
            (0x10_0000nat, " MiB"@)
        } else {
            (0x400nat, " KiB"@)
        };
        let n = round_half_even(v * 100, d);
        decimal(n / 100) + seq!['.', crate::text::digit_char((n % 100) / 10), crate::text::digit_char(n % 10)] + unit
    }
}

fn bit_length(n: u64) -> (r: u64)
    ensures
        r == bit_len(n as nat),
        r <= 64,
{
    let mut c: u64 = 0;
    let mut m = n;
    proof {
        lemma_bit_len_bound(n as nat);
    }
    while m > 0
        invariant
            bit_len(n as nat) == c + bit_len(m as nat),
            c + bit_len(m as nat) <= 64,
            m as nat <= u64::MAX,
            bit_len(m as nat) + c == bit_len(n as nat),
            c <= 64,
        decreases m,
    {
        proof {
            lemma_bit_len_bound(m as nat);
        }
        c = c + 1;
        m = m / 2;
    }
    proof {
        lemma_bit_len_bound(n as nat);
    }
    c
}

proof fn lemma_bit_len_bound(n: nat)
    requires
        n <= u64::MAX,
    ensures
        bit_len(n) <= 64,
{
    lemma_bit_len_mono(n, u64::MAX as nat);
    reveal_with_fuel(bit_len, 66);
    assert(bit_len(u64::MAX as nat) == 64);
}

proof fn lemma_bit_len_mono(a: nat, b: nat)
    requires
        a <= b,
    ensures
        bit_len(a) <= bit_len(b),
    decreases b,
{
    if a > 0 {
        lemma_bit_len_mono(a / 2, b / 2);
    }
}

fn power_of_two(e: u64) -> (r: u128)
    requires
        e <= 11,
    ensures
        r == two_pow(e as nat),
        r > 0,
{
    let mut r: u128 = 1;
    let mut i: u64 = 0;
    proof {
        reveal_with_fuel(two_pow, 12);
    }
    while i < e
        invariant
            i <= e <= 11,
            r == two_pow(i as nat),
            two_pow(11) == 2048,
            r > 0,
        decreases e - i,
    {
        proof {
            lemma_two_pow_mono((i + 1) as nat, 11);
        }
        r = r * 2;
        i += 1;
    }
    r
}

proof fn lemma_two_pow_mono(i: nat, j: nat)
    requires
        i <= j,
    ensures
        two_pow(i) <= two_pow(j),
        two_pow(i) > 0,
    decreases j,
{
    if j > 0 && i < j {
        lemma_two_pow_mono(i, (j - 1) as nat);
    } else if i > 0 {
        lemma_two_pow_mono((i - 1) as nat, (i - 1) as nat);
    }
}

proof fn lemma_two_pow_add(a: nat, b: nat)
    ensures
        two_pow(a + b) == two_pow(a) * two_pow(b),
    decreases a,
{
    if a > 0 {
        lemma_two_pow_add((a - 1) as nat, b);
        assert(two_pow(a) == 2 * two_pow((a - 1) as nat));
        assert(two_pow(a + b) == 2 * two_pow((a - 1 + b) as nat));
        let x = two_pow((a - 1) as nat);
        let y = two_pow(b);
        assert(two_pow((a - 1) as nat + b) == x * y);
        assert(2 * (x * y) == (2 * x) * y) by (nonlinear_arith);
    } else {
        assert(two_pow(0) == 1);
        assert(two_pow(a + b) == two_pow(b));
    }
}

fn rounded_div(n: u128, d: u128) -> (r: u128)
    requires
        d > 0,
        n < 0x1_0000_0000_0000_0000_0000_0000,
    ensures
        r == round_half_even(n as nat, d as nat),
{
    let q = n / d;
    let rem = n % d;
    if rem > d - rem {
        q + 1
    } else if rem < d - rem {
        q
    } else if q % 2 == 1 {
        q + 1
    } else {
        q
    }
}

proof fn lemma_bit_len_2_53()
    ensures
        bit_len(0x20_0000_0000_0000nat) == 54,
{
    reveal_with_fuel(bit_len, 56);
}

/// `n as f64`, as an exact integer.
fn f64_value(n: u64) -> (r: u128)
    ensures
        r == as_f64(n as nat),
        r <= 0x1_0000_0000_0000_0000,
{
    if n < 0x20_0000_0000_0000 {
        return n as u128;
    }
    let bits = bit_length(n);
    proof {
        lemma_bit_len_mono(0x20_0000_0000_0000, n as nat);
        lemma_bit_len_2_53();
    }
    let e = bits - 53;
    let p = power_of_two(e);
    let m = rounded_div(n as u128, p);
    proof {
        lemma_rounded_bound(n as nat, e as nat, m as nat);
    }
    m * p
}

proof fn lemma_two_pow_64()
    ensures
        two_pow(64) == 0x1_0000_0000_0000_0000,
{
    reveal_with_fuel(two_pow, 65);
}

proof fn lemma_rounded_bound(n: nat, e: nat, m: nat)
    requires
        e <= 64,
        n <= u64::MAX,
        m == round_half_even(n, two_pow(e)),
    ensures
        m * two_pow(e) <= 0x1_0000_0000_0000_0000,
{
    let p = two_pow(e);
    lemma_two_pow_mono(e, e);
    let k = two_pow((64 - e) as nat);
    lemma_two_pow_add(e, (64 - e) as nat);
    lemma_two_pow_64();
    assert(p * k == 0x1_0000_0000_0000_0000);
    let q = n / p;
    let r = n % p;
    vstd::arithmetic::div_mod::lemma_fundamental_div_mod(n as int, p as int);
    vstd::arithmetic::div_mod::lemma_mod_pos_bound(n as int, p as int);
    assert(q * p <= n);
    assert(q < k) by (nonlinear_arith)
        requires
            q * p <= n,
            n < p * k,
            p > 0,
    ;
    assert(m <= q + 1);
    assert(m * p <= k * p) by (nonlinear_arith)
        requires
            m <= q + 1,
            q < k,
            p > 0,
    ;
}

proof fn lemma_scaled_bound(x: nat, d: nat, n: nat)
    requires
        d >= 1024,
        x <= 100 * 0x1_0000_0000_0000_0000,
        n == round_half_even(x, d),
    ensures
        n / 100 <= u64::MAX,
{
    let q = x / d;
    assert(q * d <= x) by {
        vstd::arithmetic::div_mod::lemma_fundamental_div_mod(x as int, d as int);
        vstd::arithmetic::div_mod::lemma_mod_pos_bound(x as int, d as int);
    }
    assert(q * 1024 <= q * d) by (nonlinear_arith)
        requires
            d >= 1024,
    ;
    assert(q <= 100 * 0x40_0000_0000_0000);
    assert(n <= q + 1);
}

/// A byte count for display: bytes below 1 KiB, otherwise two decimals in
/// KiB, MiB, GiB or TiB.
pub fn format_bytes(bytes: u64) -> (r: String)
    ensures
        r@ == spec_format_bytes(bytes),
{
    if bytes < 1024 {
        let mut r = crate::text::decimal_string(bytes);
        push_str(&mut r, " B");
        return r;
    }
    let (d, unit): (u128, &str) = if bytes >= 0x100_0000_0000 {
        (0x100_0000_0000, " TiB")
    } else if bytes >= 0x4000_0000 {
        (0x4000_0000, " GiB")
    } else if bytes >= 0x10_0000 {
        (0x10_0000, " MiB")
    } else {
        (0x400, " KiB")
    };
    let v = f64_value(bytes);
    let n = rounded_div(v * 100, d);
    proof {
        lemma_scaled_bound((v * 100) as nat, d as nat, n as nat);
    }
    let whole = n / 100;
    let mut r = crate::text::decimal_string(whole as u64);
    push_char(&mut r, '.');
    push_char(&mut r, digit_of(((n % 100) / 10) as u64));
    push_char(&mut r, digit_of((n % 10) as u64));
    push_str(&mut r, unit);
    r
}

} // verus!
