//! Decoding of the performance-limit-reasons registers: which throttle
//! causes a register value reports, and the human-readable report built
//! from them. Reading the registers is device I/O and happens outside
//! the library; the decoding happens here.
use vstd::prelude::*;
use vstd::string::StringExecFns;

use crate::msr::{msr_bit, msr_get_bit};

verus! {

/// One cause of CPU, GPU or ring throttling, as reported by the
/// performance-limit-reasons registers.
#[derive(Copy, Clone, Debug, PartialEq, Eq, Structural)]
pub enum ThrottleReason {
    Prochot,
    ThermalEvt,
    ResidencyStateRegulation,
    AvgThermalLimit,
    VrThermalEvt,
    VrTdcLimit,
    Other,
    PL1,
    PL2,
    MaxTurboLimit,
    TurboTransition,
}

impl ThrottleReason {
    /// The human-readable name of the cause.
    pub open spec fn label_spec(self) -> Seq<char> {
        match self {
            ThrottleReason::Prochot => "PROCHOT"@,
            ThrottleReason::ThermalEvt => "Thermal event"@,
            ThrottleReason::ResidencyStateRegulation => "Residency state regulation limit"@,
            ThrottleReason::AvgThermalLimit => "Running average thermal limit"@,
            ThrottleReason::VrThermalEvt => "Voltage regulator thermal alert"@,
            ThrottleReason::VrTdcLimit => "Voltage regulator TDC limit"@,
            ThrottleReason::Other => "Other/electrical/EDP"@,
            ThrottleReason::PL1 => "PL1"@,
            ThrottleReason::PL2 => "PL2"@,
            ThrottleReason::MaxTurboLimit => "Max turbo limit"@,
            ThrottleReason::TurboTransition => "Turbo transition attenuation"@,
        }
    }

    pub fn label(&self) -> (r: String)
        ensures
            r@ == self.label_spec(),
    {
        match self {
            ThrottleReason::Prochot => "PROCHOT".to_owned(),
            ThrottleReason::ThermalEvt => "Thermal event".to_owned(),
            ThrottleReason::ResidencyStateRegulation => "Residency state regulation limit"
                .to_owned(),
            ThrottleReason::AvgThermalLimit => "Running average thermal limit".to_owned(),
            ThrottleReason::VrThermalEvt => "Voltage regulator thermal alert".to_owned(),
            ThrottleReason::VrTdcLimit => "Voltage regulator TDC limit".to_owned(),
            ThrottleReason::Other => "Other/electrical/EDP".to_owned(),
            ThrottleReason::PL1 => "PL1".to_owned(),
            ThrottleReason::PL2 => "PL2".to_owned(),
            ThrottleReason::MaxTurboLimit => "Max turbo limit".to_owned(),
            ThrottleReason::TurboTransition => "Turbo transition attenuation".to_owned(),
        }
    }
}

/// The labels of the causes from index `i` on, joined by a comma and a
/// space.
pub open spec fn joined_labels(reasons: Seq<ThrottleReason>, i: int) -> Seq<char>
    decreases reasons.len() - i,
{
    if i < 0 || i >= reasons.len() {
        Seq::empty()
    } else if i == reasons.len() - 1 {
        reasons[i].label_spec()
    } else {
        reasons[i].label_spec() + ", "@ + joined_labels(reasons, i + 1)
    }
}

/// One report line: the subsystem name, then the joined cause labels, or
/// the word None when nothing throttles.
pub open spec fn print_spec(ty: Seq<char>, reasons: Seq<ThrottleReason>) -> Seq<char> {
    ty + " throttle reasons: "@ + if reasons.len() == 0 {
        "None"@
    } else {
        joined_labels(reasons, 0)
    }
}

/// Appends the joined labels of the causes from index `i` on.
fn append_labels(reasons: &Vec<ThrottleReason>, i: usize, out: &mut String)
    ensures
        final(out)@ == old(out)@ + joined_labels(reasons@, i as int),
    decreases reasons@.len() - i,
{
    if i >= reasons.len() {
        proof {
            assert(old(out)@ + joined_labels(reasons@, i as int) =~= old(out)@);
        }
        return ;
    }
    let lab = reasons[i].label();
    out.append(lab.as_str());
    if i + 1 < reasons.len() {
        out.append(", ");
        append_labels(reasons, i + 1, out);
        proof {
            assert(old(out)@ + (reasons@[i as int].label_spec() + ", "@ + joined_labels(
                reasons@,
                i as int + 1,
            )) =~= ((old(out)@ + reasons@[i as int].label_spec()) + ", "@) + joined_labels(
                reasons@,
                i as int + 1,
            ));
        }
    }
}

/// Builds one report line for a subsystem from its decoded causes.
pub fn print(ty: &str, reasons: &Vec<ThrottleReason>) -> (r: String)
    ensures
        r@ == print_spec(ty@, reasons@),
{
    let mut out = ty.to_owned();
    out.append(" throttle reasons: ");
    if reasons.len() == 0 {
        out.append("None");
    } else {
        append_labels(reasons, 0, &mut out);
    }
    proof {
        if reasons@.len() == 0 {
            assert((ty@ + " throttle reasons: "@) + "None"@ =~= ty@ + (" throttle reasons: "@
                + "None"@));
        } else {
            assert((ty@ + " throttle reasons: "@) + joined_labels(reasons@, 0) =~= ty@ + (
            " throttle reasons: "@ + joined_labels(reasons@, 0)));
        }
    }
    out
}

/// The causes that a CPU performance-limit register value reports, in
/// bit order.
pub open spec fn cpu_reasons_spec(msr: u64) -> Seq<ThrottleReason> {
    let s = Seq::<ThrottleReason>::empty();
    let s = if msr_bit(msr, 0) {
        s.push(ThrottleReason::Prochot)
    } else {
        s
    };
    let s = if msr_bit(msr, 1) {
        s.push(ThrottleReason::ThermalEvt)
    } else {
        s
    };
    let s = if msr_bit(msr, 4) {
        s.push(ThrottleReason::ResidencyStateRegulation)
    } else {
        s
    };
    let s = if msr_bit(msr, 5) {
        s.push(ThrottleReason::AvgThermalLimit)
    } else {
        s
    };
    let s = if msr_bit(msr, 6) {
        s.push(ThrottleReason::VrThermalEvt)
    } else {
        s
    };
    let s = if msr_bit(msr, 7) {
        s.push(ThrottleReason::VrTdcLimit)
    } else {
        s
    };
    let s = if msr_bit(msr, 8) {
        s.push(ThrottleReason::Other)
    } else {
        s
    };
    let s = if msr_bit(msr, 10) {
        s.push(ThrottleReason::PL1)
    } else {
        s
    };
    let s = if msr_bit(msr, 11) {
        s.push(ThrottleReason::PL2)
    } else {
        s
    };
    let s = if msr_bit(msr, 12) {
        s.push(ThrottleReason::MaxTurboLimit)
    } else {
        s
    };
    let s = if msr_bit(msr, 13) {
        s.push(ThrottleReason::TurboTransition)
    } else {
        s
    };
    s
}

/// The causes that a GPU or ring performance-limit register value
/// reports, in bit order.
pub open spec fn gpu_ring_reasons_spec(msr: u64) -> Seq<ThrottleReason> {
    let s = Seq::<ThrottleReason>::empty();
    let s = if msr_bit(msr, 0) {
        s.push(ThrottleReason::Prochot)
    } else {
        s
    };
    let s = if msr_bit(msr, 1) {
        s.push(ThrottleReason::ThermalEvt)
    } else {
        s
    };
    let s = if msr_bit(msr, 5) {
        s.push(ThrottleReason::AvgThermalLimit)
    } else {
        s
    };
    let s = if msr_bit(msr, 6) {
        s.push(ThrottleReason::VrThermalEvt)
    } else {
        s
    };
    let s = if msr_bit(msr, 7) {
        s.push(ThrottleReason::VrTdcLimit)
    } else {
        s
    };
    let s = if msr_bit(msr, 8) {
        s.push(ThrottleReason::Other)
    } else {
        s
    };
    let s = if msr_bit(msr, 10) {
        s.push(ThrottleReason::PL1)
    } else {
        s
    };
    let s = if msr_bit(msr, 11) {
        s.push(ThrottleReason::PL2)
    } else {
        s
    };
    s
}

/// Decodes the CPU causes from a register value.
fn cpu_reasons(msr: u64) -> (r: Vec<ThrottleReason>)
    ensures
        r@ == cpu_reasons_spec(msr),
{
    let mut v: Vec<ThrottleReason> = Vec::new();
    if msr_get_bit(msr, 0) {
        v.push(ThrottleReason::Prochot);
    }
    if msr_get_bit(msr, 1) {
        v.push(ThrottleReason::ThermalEvt);
    }
    if msr_get_bit(msr, 4) {
        v.push(ThrottleReason::ResidencyStateRegulation);
    }
    if msr_get_bit(msr, 5) {
        v.push(ThrottleReason::AvgThermalLimit);
    }
    if msr_get_bit(msr, 6) {
        v.push(ThrottleReason::VrThermalEvt);
    }
    if msr_get_bit(msr, 7) {
        v.push(ThrottleReason::VrTdcLimit);
    }
    if msr_get_bit(msr, 8) {
        v.push(ThrottleReason::Other);
    }
    if msr_get_bit(msr, 10) {
        v.push(ThrottleReason::PL1);
    }
    if msr_get_bit(msr, 11) {
        v.push(ThrottleReason::PL2);
    }
    if msr_get_bit(msr, 12) {
        v.push(ThrottleReason::MaxTurboLimit);
    }
    if msr_get_bit(msr, 13) {
        v.push(ThrottleReason::TurboTransition);
    }
    proof {
        assert(v@ =~= cpu_reasons_spec(msr));
    }
    v
}

/// Decodes the GPU or ring causes from a register value.
fn gpu_ring_reasons(msr: u64) -> (r: Vec<ThrottleReason>)
    ensures
        r@ == gpu_ring_reasons_spec(msr),
{
    let mut v: Vec<ThrottleReason> = Vec::new();
    if msr_get_bit(msr, 0) {
        v.push(ThrottleReason::Prochot);
    }
    if msr_get_bit(msr, 1) {
        v.push(ThrottleReason::ThermalEvt);
    }
    if msr_get_bit(msr, 5) {
        v.push(ThrottleReason::AvgThermalLimit);
    }
    if msr_get_bit(msr, 6) {
        v.push(ThrottleReason::VrThermalEvt);
    }
    if msr_get_bit(msr, 7) {
        v.push(ThrottleReason::VrTdcLimit);
    }
    if msr_get_bit(msr, 8) {
        v.push(ThrottleReason::Other);
    }
    if msr_get_bit(msr, 10) {
        v.push(ThrottleReason::PL1);
    }
    if msr_get_bit(msr, 11) {
        v.push(ThrottleReason::PL2);
    }
    proof {
        assert(v@ =~= gpu_ring_reasons_spec(msr));
    }
    v
}

/// The CPU throttle report for a CPU performance-limit register value.
pub fn cpu_throttling(msr: u64) -> (r: String)
    ensures
        r@ == print_spec("CPU"@, cpu_reasons_spec(msr)),
{
    let reasons = cpu_reasons(msr);
    print("CPU", &reasons)
}

/// The GPU throttle report for a graphics performance-limit register
/// value, with an extra line when the GPU runs below its target
/// frequency.
pub fn graphics_throttling(msr: u64) -> (r: String)
    ensures
        r@ == print_spec("GPU"@, gpu_ring_reasons_spec(msr)) + if msr_bit(msr, 12) {
            "\nGPU operating below target frequency"@
        } else {
            Seq::<char>::empty()
        },
{
    let reasons = gpu_ring_reasons(msr);
    let mut out = print("GPU", &reasons);
    if msr_get_bit(msr, 12) {
        out.append("\nGPU operating below target frequency");
    } else {
        proof {
            assert(out@ + Seq::<char>::empty() =~= out@);
        }
    }
    out
}

/// The ring throttle report for a ring performance-limit register value.
pub fn ring_throttling(msr: u64) -> (r: String)
    ensures
        r@ == print_spec("Ring"@, gpu_ring_reasons_spec(msr)),
{
    let reasons = gpu_ring_reasons(msr);
    print("Ring", &reasons)
}

} // verus!
