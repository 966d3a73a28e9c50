//! Icon tier: a deterministic, side-effect-free classification of a device's
//! average volume into the tier the panel displays. Muted always classifies
//! as `Muted`; otherwise output volumes break at 25%, 50% and 75% of full
//! scale into four tiers, and input volumes break at 33% and 66% into three.

use vstd::prelude::*;

use crate::device::DeviceInfoView;
use crate::volume::VOLUME_NORM;
use crate::volume::Volume;
use crate::volume::VolumeView;

verus! {

/// The tier the panel shows for a device's volume.
#[derive(Clone, Copy, Debug, PartialEq, Eq, Structural)]
pub enum IconTier {
    Muted,
    Low,
    Medium,
    High,
    Overamplified,
}

/// Output tier of an average level `avg` with mute flag `muted`:
/// muted, else low below 25% of full scale, medium below 50%, high below
/// 75%, overamplified at or above 75%.
pub open spec fn spec_output_tier(avg: u32, muted: bool) -> IconTier {
    if muted {
        IconTier::Muted
    } else if avg < VOLUME_NORM / 4 {
        IconTier::Low
    } else if avg < VOLUME_NORM / 2 {
        IconTier::Medium
    } else if avg < 3 * (VOLUME_NORM as int) / 4 {
        IconTier::High
    } else {
        IconTier::Overamplified
    }
}

/// Input tier of an average level `avg` with mute flag `muted`:
/// muted, else low below 33% of full scale, medium below 66%, high at or
/// above 66%. Input devices have no overamplified tier.
pub open spec fn spec_input_tier(avg: u32, muted: bool) -> IconTier {
    if muted {
        IconTier::Muted
    } else if 100 * (avg as int) < 33 * (VOLUME_NORM as int) {
        IconTier::Low
    } else if 100 * (avg as int) < 66 * (VOLUME_NORM as int) {
        IconTier::Medium
    } else {
        IconTier::High
    }
}

/// Output tier of a whole volume vector: classify its average.
pub open spec fn spec_output_tier_of(v: VolumeView) -> IconTier {
    spec_output_tier(v.avg(), v.muted)
}

/// Input tier of a whole volume vector: classify its average.
pub open spec fn spec_input_tier_of(v: VolumeView) -> IconTier {
    spec_input_tier(v.avg(), v.muted)
}

/// Output icon shown for the current output device: the muted icon when no
/// device is selected, otherwise the icon of the device's tier.
pub open spec fn spec_output_icon(o: Option<DeviceInfoView>) -> Seq<char> {
    match o {
        Some(d) => spec_output_icon_name(spec_output_tier_of(d.volume)),
        None => spec_output_icon_name(IconTier::Muted),
    }
}

/// Input icon shown for the current input device: the muted icon when no
/// device is selected, otherwise the icon of the device's tier.
pub open spec fn spec_input_icon(o: Option<DeviceInfoView>) -> Seq<char> {
    match o {
        Some(d) => spec_input_icon_name(spec_input_tier_of(d.volume)),
        None => spec_input_icon_name(IconTier::Muted),
    }
}

/// Themed icon name of an output tier.
pub open spec fn spec_output_icon_name(t: IconTier) -> Seq<char> {
    match t {
        IconTier::Muted => "audio-volume-muted-symbolic"@,
        IconTier::Low => "audio-volume-low-symbolic"@,
        IconTier::Medium => "audio-volume-medium-symbolic"@,
        IconTier::High => "audio-volume-high-symbolic"@,
        IconTier::Overamplified => "audio-volume-overamplified-symbolic"@,
    }
}

/// Themed icon name of an input tier; inputs never reach `Overamplified`,
/// which maps to the high icon.
pub open spec fn spec_input_icon_name(t: IconTier) -> Seq<char> {
    match t {
        IconTier::Muted => "microphone-sensitivity-muted-symbolic"@,
        IconTier::Low => "microphone-sensitivity-low-symbolic"@,
        IconTier::Medium => "microphone-sensitivity-medium-symbolic"@,
        IconTier::High => "microphone-sensitivity-high-symbolic"@,
        IconTier::Overamplified => "microphone-sensitivity-high-symbolic"@,
    }
}

/// Classify a volume for the output icon.
pub fn output_tier(v: &Volume) -> (r: IconTier)
    requires
        v.wf(),
    ensures
        r == spec_output_tier_of(v@),
{
    if v.is_muted() {
        IconTier::Muted
    } else {
        let avg = v.avg();
        if avg < VOLUME_NORM / 4 {
            IconTier::Low
        } else if avg < VOLUME_NORM / 2 {
            IconTier::Medium
        } else if (avg as u64) * 4 < (VOLUME_NORM as u64) * 3 {
            IconTier::High
        } else {
            IconTier::Overamplified
        }
    }
}

/// Classify a volume for the input icon.
pub fn input_tier(v: &Volume) -> (r: IconTier)
    requires
        v.wf(),
    ensures
        r == spec_input_tier_of(v@),
{
    if v.is_muted() {
        IconTier::Muted
    } else {
        let avg = v.avg();
        if (avg as u64) * 100 < (VOLUME_NORM as u64) * 33 {
            IconTier::Low
        } else if (avg as u64) * 100 < (VOLUME_NORM as u64) * 66 {
            IconTier::Medium
        } else {
            IconTier::High
        }
    }
}

/// Exact breakpoints of the output classification, stated for every average
/// level and mute flag: muted always classifies as `Muted`; otherwise the
/// tier is `Low` exactly below a quarter of full scale, `Medium` from a
/// quarter up to half, `High` from half up to three quarters, and
/// `Overamplified` from three quarters on.
pub proof fn lemma_output_tier_breakpoints(avg: u32, muted: bool)
    ensures
        muted ==> spec_output_tier(avg, muted) == IconTier::Muted,
        !muted ==> (spec_output_tier(avg, muted) == IconTier::Low <==> avg < VOLUME_NORM / 4),
        !muted ==> (spec_output_tier(avg, muted) == IconTier::Medium <==> VOLUME_NORM / 4 <= avg
            < VOLUME_NORM / 2),
        !muted ==> (spec_output_tier(avg, muted) == IconTier::High <==> VOLUME_NORM / 2 <= avg && 4
            * (avg as int) < 3 * (VOLUME_NORM as int)),
        !muted ==> (spec_output_tier(avg, muted) == IconTier::Overamplified <==> 4 * (avg as int)
            >= 3 * (VOLUME_NORM as int)),
{
}

/// Exact breakpoints of the input classification, stated for every average
/// level and mute flag: muted always classifies as `Muted`; otherwise the
/// tier is `Low` exactly below 33% of full scale, `Medium` from 33% up to
/// 66%, and `High` from 66% on.
pub proof fn lemma_input_tier_breakpoints(avg: u32, muted: bool)
    ensures
        muted ==> spec_input_tier(avg, muted) == IconTier::Muted,
        !muted ==> (spec_input_tier(avg, muted) == IconTier::Low <==> 100 * (avg as int) < 33 * (
        VOLUME_NORM as int)),
        !muted ==> (spec_input_tier(avg, muted) == IconTier::Medium <==> 33 * (VOLUME_NORM as int)
            <= 100 * (avg as int) < 66 * (VOLUME_NORM as int)),
        !muted ==> (spec_input_tier(avg, muted) == IconTier::High <==> 100 * (avg as int) >= 66 * (
        VOLUME_NORM as int)),
{
}

/// Icon name of an output tier, as the UI host consumes it.
pub fn output_icon_name(t: IconTier) -> (r: String)
    ensures
        r@ == spec_output_icon_name(t),
{
    match t {
        IconTier::Muted => "audio-volume-muted-symbolic".to_string(),
        IconTier::Low => "audio-volume-low-symbolic".to_string(),
        IconTier::Medium => "audio-volume-medium-symbolic".to_string(),
        IconTier::High => "audio-volume-high-symbolic".to_string(),
        IconTier::Overamplified => "audio-volume-overamplified-symbolic".to_string(),
    }
}

/// Icon name of an input tier, as the UI host consumes it.
pub fn input_icon_name(t: IconTier) -> (r: String)
    ensures
        r@ == spec_input_icon_name(t),
{
    match t {
        IconTier::Muted => "microphone-sensitivity-muted-symbolic".to_string(),
        IconTier::Low => "microphone-sensitivity-low-symbolic".to_string(),
        IconTier::Medium => "microphone-sensitivity-medium-symbolic".to_string(),
        IconTier::High => "microphone-sensitivity-high-symbolic".to_string(),
        IconTier::Overamplified => "microphone-sensitivity-high-symbolic".to_string(),
    }
}

} // verus!
