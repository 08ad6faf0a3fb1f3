//! The acceleration resolver: chooses an encoding strategy (a hardware
//! encoder kind or software) from the host platform, the presence of a burn
//! request, and an already-probed encoder availability table.

use vstd::prelude::*;

verus! {

/// The host platform identity, the only environmental input the core
/// consumes.
#[derive(Clone, Copy, Debug, PartialEq, Eq, Structural)]
pub enum Platform {
    MacOs,
    Windows,
    Linux,
    Other,
}

/// The hardware encoder kinds this policy knows.
#[derive(Clone, Copy, Debug, PartialEq, Eq, Structural)]
pub enum HwKind {
    Videotoolbox,
    Nvenc,
    Qsv,
    Vaapi,
}

/// Exactly one strategy is chosen per file: a hardware kind, or software.
#[derive(Clone, Copy, Debug, PartialEq, Eq, Structural)]
pub enum EncodingStrategy {
    Software,
    Hardware(HwKind),
}

/// The run-scoped availability table of the probed hardware encoders,
/// populated once by the capability-probe collaborator and passed in
/// explicitly so the resolver stays a pure function of its inputs.
#[derive(Clone, Copy, Debug, PartialEq, Eq, Structural)]
pub struct EncoderAvailability {
    pub nvenc: bool,
    pub qsv: bool,
    pub vaapi: bool,
}

/// The strategy decision: a burn request always forces software (the filter
/// graph it needs is only supported on the software path); otherwise each
/// platform tries its hardware candidates in a fixed priority order and
/// falls back to software.
pub open spec fn spec_strategy(
    platform: Platform,
    has_burn: bool,
    avail: EncoderAvailability,
) -> EncodingStrategy {
    if has_burn {
        EncodingStrategy::Software
    } else {
        match platform {
            Platform::MacOs => EncodingStrategy::Hardware(HwKind::Videotoolbox),
            Platform::Windows => if avail.nvenc {
                EncodingStrategy::Hardware(HwKind::Nvenc)
            } else if avail.qsv {
                EncodingStrategy::Hardware(HwKind::Qsv)
            } else {
                EncodingStrategy::Software
            },
            Platform::Linux => if avail.nvenc {
                EncodingStrategy::Hardware(HwKind::Nvenc)
            } else if avail.vaapi {
                EncodingStrategy::Hardware(HwKind::Vaapi)
            } else {
                EncodingStrategy::Software
            },
            Platform::Other => EncodingStrategy::Software,
        }
    }
}

/// Resolve the encoding strategy for one file: software whenever a burn is
/// requested; otherwise macOS always takes videotoolbox, Windows tries
/// NVENC then QSV, Linux tries NVENC then VAAPI, and anything else (or no
/// available hardware) takes software.
pub fn detect_hardware_acceleration(
    platform: Platform,
    has_burn: bool,
    avail: EncoderAvailability,
) -> (s: EncodingStrategy)
    ensures
        s == spec_strategy(platform, has_burn, avail),
{
    if has_burn {
        return EncodingStrategy::Software;
    }
    match platform {
        Platform::MacOs => EncodingStrategy::Hardware(HwKind::Videotoolbox),
        Platform::Windows => {
            if avail.nvenc {
                EncodingStrategy::Hardware(HwKind::Nvenc)
            } else if avail.qsv {
                EncodingStrategy::Hardware(HwKind::Qsv)
            } else {
                EncodingStrategy::Software
            }
        },
        Platform::Linux => {
            if avail.nvenc {
                EncodingStrategy::Hardware(HwKind::Nvenc)
            } else if avail.vaapi {
                EncodingStrategy::Hardware(HwKind::Vaapi)
            } else {
                EncodingStrategy::Software
            }
        },
        Platform::Other => EncodingStrategy::Software,
    }
}

/// Whenever a burn request exists, the resolved strategy is software,
/// regardless of platform or hardware availability.
pub proof fn lemma_burn_forces_software(platform: Platform, avail: EncoderAvailability)
    ensures
        spec_strategy(platform, true, avail) == EncodingStrategy::Software,
{
}

} // verus!
