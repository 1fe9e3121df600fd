//! Which calibration a session performs, from the command-line switches, and
//! where an operator's answer files a measured capacitance.
use vstd::prelude::*;

verus! {

/// The calibration to perform.
#[derive(Debug, Clone, Copy, PartialEq, Eq, Structural)]
pub enum CalibrationAction {
    /// Calibrate the counting period against a reference frequency
    /// (`ref_frequency`), averaging over `count` periods.
    Frequency { count: u8, ref_frequency: u32 },
    /// Measure a capacitor against the reference capacitors `c1`, `c2` (pF)
    /// and file it as a reference.
    Capacity { c1: Option<u16>, c2: Option<u16> },
    /// Measure the oscillator's own C0 / L0 against the reference capacitors.
    Induction { c1: Option<u16>, c2: Option<u16> },
    /// Measure the quartz switch capacitance.
    Quartz,
    /// Nothing to do.
    Nothing,
}

/// The calibration chosen by the switches: the first switch set among
/// frequency, capacity, induction and quartz decides; a frequency
/// calibration also needs both the reference frequency and the count, and
/// without them nothing is done.
pub open spec fn spec_calibration(
    frequency_cal: bool,
    capacity: bool,
    induction: bool,
    quartz: bool,
    ref_frequency: Option<u32>,
    count: Option<u8>,
    c1: Option<u16>,
    c2: Option<u16>,
) -> CalibrationAction {
    if frequency_cal {
        match (ref_frequency, count) {
            (Some(f), Some(n)) => CalibrationAction::Frequency { count: n, ref_frequency: f },
            _ => CalibrationAction::Nothing,
        }
    } else if capacity {
        CalibrationAction::Capacity { c1, c2 }
    } else if induction {
        CalibrationAction::Induction { c1, c2 }
    } else if quartz {
        CalibrationAction::Quartz
    } else {
        CalibrationAction::Nothing
    }
}

/// Chooses the calibration to perform from the command-line switches.
pub fn calibration(
    frequency_cal: bool,
    capacity: bool,
    induction: bool,
    quartz: bool,
    ref_frequency: Option<u32>,
    count: Option<u8>,
    c1: Option<u16>,
    c2: Option<u16>,
) -> (action: CalibrationAction)
    ensures
        action == spec_calibration(
            frequency_cal,
            capacity,
            induction,
            quartz,
            ref_frequency,
            count,
            c1,
            c2,
        ),
{
    if frequency_cal {
        if let Some(f) = ref_frequency {
            if let Some(n) = count {
                return CalibrationAction::Frequency { count: n, ref_frequency: f };
            }
        }
        CalibrationAction::Nothing
    } else if capacity {
        CalibrationAction::Capacity { c1, c2 }
    } else if induction {
        CalibrationAction::Induction { c1, c2 }
    } else if quartz {
        CalibrationAction::Quartz
    } else {
        CalibrationAction::Nothing
    }
}

/// A reference capacitor slot of the calibration record.
#[derive(Debug, Clone, Copy, PartialEq, Eq, Structural)]
pub enum CrefSlot {
    Cref1,
    Cref2,
}

/// Where the operator's answer files a measured capacitance: "1" as the
/// first reference, "2" as the second; any other answer files nothing.
pub fn lc_cref_choice(answer: &String) -> (slot: Option<CrefSlot>)
    ensures
        answer@ == "1"@ ==> slot == Some(CrefSlot::Cref1),
        answer@ == "2"@ ==> slot == Some(CrefSlot::Cref2),
        answer@ != "1"@ && answer@ != "2"@ ==> slot is None,
{
    proof {
        reveal_strlit("1");
        reveal_strlit("2");
        assert("1"@[0] != "2"@[0]);
    }
    let one = "1".to_owned();
    let two = "2".to_owned();
    if answer.eq(&one) {
        Some(CrefSlot::Cref1)
    } else if answer.eq(&two) {
        Some(CrefSlot::Cref2)
    } else {
        None
    }
}

/// A quartz-measurement capacitance slot.
#[derive(Debug, Clone, Copy, PartialEq, Eq, Structural)]
pub enum QuartzSlot {
    /// Cq, the quartz crystal's own capacitance.
    Cq,
    /// Cs, the switch capacitor.
    Cswitch,
    /// The first quartz reference capacitor.
    Cref1,
    /// The second quartz reference capacitor.
    Cref2,
}

/// Where the operator's answer files a capacitance measured for the quartz
/// measurement: "1" Cq, "2" Cs, "3" first reference, "4" second reference;
/// any other answer files nothing.
pub fn quartz_cref_choice(answer: &String) -> (slot: Option<QuartzSlot>)
    ensures
        answer@ == "1"@ ==> slot == Some(QuartzSlot::Cq),
        answer@ == "2"@ ==> slot == Some(QuartzSlot::Cswitch),
        answer@ == "3"@ ==> slot == Some(QuartzSlot::Cref1),
        answer@ == "4"@ ==> slot == Some(QuartzSlot::Cref2),
        answer@ != "1"@ && answer@ != "2"@ && answer@ != "3"@ && answer@ != "4"@ ==> slot is None,
{
    proof {
        reveal_strlit("1");
        reveal_strlit("2");
        reveal_strlit("3");
        reveal_strlit("4");
        assert("1"@[0] != "2"@[0]);
        assert("1"@[0] != "3"@[0]);
        assert("1"@[0] != "4"@[0]);
        assert("2"@[0] != "3"@[0]);
        assert("2"@[0] != "4"@[0]);
        assert("3"@[0] != "4"@[0]);
    }
    if answer.eq(&"1".to_owned()) {
        Some(QuartzSlot::Cq)
    } else if answer.eq(&"2".to_owned()) {
        Some(QuartzSlot::Cswitch)
    } else if answer.eq(&"3".to_owned()) {
        Some(QuartzSlot::Cref1)
    } else if answer.eq(&"4".to_owned()) {
        Some(QuartzSlot::Cref2)
    } else {
        None
    }
}

/// The calibration chosen by the switches: frequency calibration takes
/// precedence, then capacity, then induction, then quartz; capacity is
/// chosen whatever the induction and quartz switches say, and a frequency
/// calibration without both the reference frequency and the count does
/// nothing.
pub proof fn lemma_calibration_choice(
    frequency_cal: bool,
    capacity: bool,
    induction: bool,
    quartz: bool,
    ref_frequency: Option<u32>,
    count: Option<u8>,
    c1: Option<u16>,
    c2: Option<u16>,
)
    ensures
        ({
            let a = spec_calibration(
                frequency_cal,
                capacity,
                induction,
                quartz,
                ref_frequency,
                count,
                c1,
                c2,
            );
            &&& (frequency_cal && ref_frequency is Some && count is Some) ==> a
                == CalibrationAction::Frequency {
                count: count->0,
                ref_frequency: ref_frequency->0,
            }
            &&& (frequency_cal && (ref_frequency is None || count is None)) ==> a
                == CalibrationAction::Nothing
            &&& (!frequency_cal && capacity) ==> a == CalibrationAction::Capacity { c1, c2 }
            &&& (!frequency_cal && !capacity && induction) ==> a == CalibrationAction::Induction {
                c1,
                c2,
            }
            &&& (!frequency_cal && !capacity && !induction && quartz) ==> a
                == CalibrationAction::Quartz
            &&& (!frequency_cal && !capacity && !induction && !quartz) ==> a
                == CalibrationAction::Nothing
        }),
{
}

} // verus!
