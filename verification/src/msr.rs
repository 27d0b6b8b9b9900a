//! Model-specific registers: which registers the daemon touches, and the
//! bit-level operations on their values. Reading and writing the
//! registers themselves is device I/O and lives outside the library.
use vstd::prelude::*;

verus! {

/// The model-specific registers the daemon reads or writes.
#[derive(Copy, Clone, Debug, PartialEq, Eq, Structural)]
pub enum Msr {
    PowerCtl,
    ConfigTdpControl,
    CpuPerfLimitReasons,
    GraphicsPerfLimitReasons,
    RingPerfLimitReasons,
}

impl Msr {
    /// The register's address.
    pub fn addr(&self) -> (r: u32)
        ensures
            *self == Msr::PowerCtl ==> r == 0x1FC,
            *self == Msr::ConfigTdpControl ==> r == 0x64B,
            *self == Msr::CpuPerfLimitReasons ==> r == 0x64F,
            *self == Msr::GraphicsPerfLimitReasons ==> r == 0x6B0,
            *self == Msr::RingPerfLimitReasons ==> r == 0x6B1,
    {
        match self {
            Msr::PowerCtl => 0x1FC,
            Msr::ConfigTdpControl => 0x64B,
            Msr::CpuPerfLimitReasons => 0x64F,
            Msr::GraphicsPerfLimitReasons => 0x6B0,
            Msr::RingPerfLimitReasons => 0x6B1,
        }
    }
}

/// Whether bit `bit` of `val` is set.
pub open spec fn msr_bit(val: u64, bit: u64) -> bool
    recommends
        bit < 64,
{
    ((val >> bit) & 1) == 1
}

/// Reads one bit of a register value.
pub fn msr_get_bit(val: u64, bit: usize) -> (r: bool)
    requires
        bit < 64,
    ensures
        r == msr_bit(val, bit as u64),
{
    let b: u64 = bit as u64;
    ((val >> b) & 1) == 1
}

/// Sets or clears one bit of a register value, leaving the rest alone.
pub fn msr_set_bit(val: u64, bit: usize, enabled: bool) -> (r: u64)
    requires
        bit < 64,
    ensures
        msr_bit(r, bit as u64) == enabled,
        forall|b: u64| b < 64 && b != bit ==> msr_bit(r, b) == msr_bit(val, b),
{
    let bitb: u64 = bit as u64;
    if enabled {
        let r = val | (1u64 << bitb);
        proof {
            assert((((val | (1u64 << bitb)) >> bitb) & 1) == 1) by (bit_vector)
                requires
                    bitb < 64,
            ;
            assert(forall|b: u64|
                b < 64 && b != bitb ==> (((val | (1u64 << bitb)) >> b) & 1) == ((val >> b)
                    & 1)) by (bit_vector)
                requires
                    bitb < 64,
            ;
        }
        r
    } else {
        let r = val & !(1u64 << bitb);
        proof {
            assert((((val & !(1u64 << bitb)) >> bitb) & 1) == 0) by (bit_vector)
                requires
                    bitb < 64,
            ;
            assert(forall|b: u64|
                b < 64 && b != bitb ==> (((val & !(1u64 << bitb)) >> b) & 1) == ((val >> b)
                    & 1)) by (bit_vector)
                requires
                    bitb < 64,
            ;
        }
        r
    }
}

/// Extracts bits `lo` through `hi` of a register value, shifted down so
/// that bit `lo` of the register lands in bit zero of the result.
pub fn msr_get_bits(msr: u64, lo: u32, hi: u32) -> (r: u64)
    requires
        lo <= hi < 64,
    ensures
        forall|b: u64|
            b < 64 ==> msr_bit(r, b) == (b + lo <= hi && msr_bit(msr, (b + lo) as u64)),
{
    let mut r: u64 = 0;
    proof {
        assert(forall|b: u64| b < 64 ==> ((0u64 >> b) & 1) == 0) by (bit_vector);
    }
    let mut off: usize = 0;
    while off <= (hi - lo) as usize
        invariant
            lo <= hi < 64,
            0 <= off <= hi - lo + 1,
            forall|b: u64|
                b < 64 ==> msr_bit(r, b) == (b < off && b + lo <= hi && msr_bit(
                    msr,
                    (b + lo) as u64,
                )),
        decreases hi - lo + 1 - off,
    {
        let bit = msr_get_bit(msr, off + lo as usize);
        r = msr_set_bit(r, off, bit);
        off += 1;
    }
    r
}

/// Replaces bits `lo` through `hi` of a register value with the low bits
/// of `val`, leaving the rest of the register alone.
pub fn msr_set_bits(msr: u64, lo: u32, hi: u32, val: u64) -> (r: u64)
    requires
        lo <= hi < 64,
    ensures
        forall|b: u64|
            b < 64 ==> msr_bit(r, b) == (if lo <= b <= hi {
                msr_bit(val, (b - lo) as u64)
            } else {
                msr_bit(msr, b)
            }),
{
    let mut r: u64 = msr;
    let mut off: usize = 0;
    while off <= (hi - lo) as usize
        invariant
            lo <= hi < 64,
            0 <= off <= hi - lo + 1,
            forall|b: u64|
                b < 64 ==> msr_bit(r, b) == (if lo <= b <= hi && b - lo < off {
                    msr_bit(val, (b - lo) as u64)
                } else {
                    msr_bit(msr, b)
                }),
        decreases hi - lo + 1 - off,
    {
        let bit = msr_get_bit(val, off);
        r = msr_set_bit(r, off + lo as usize, bit);
        off += 1;
    }
    r
}

} // verus!
