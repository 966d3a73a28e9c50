use cosmic_applet_audio::icon::IconTier;
use cosmic_applet_audio::icon::input_icon_name;
use cosmic_applet_audio::icon::input_tier;
use cosmic_applet_audio::icon::output_icon_name;
use cosmic_applet_audio::icon::output_tier;
use cosmic_applet_audio::volume::VOLUME_MAX;
use cosmic_applet_audio::volume::VOLUME_NORM;
use cosmic_applet_audio::volume::Volume;
use cosmic_applet_audio::volume::percent_to_level;

fn uniform(level: u32) -> Volume {
    Volume::new(2, level)
}

#[test]
fn output_tier_low_band() {
    assert_eq!(output_tier(&uniform(0)), IconTier::Low);
    assert_eq!(output_tier(&uniform(16383)), IconTier::Low);
}

#[test]
fn output_tier_boundary_quarter_is_medium() {
    assert_eq!(output_tier(&uniform(16384)), IconTier::Medium);
    assert_eq!(output_tier(&uniform(32767)), IconTier::Medium);
}

#[test]
fn output_tier_boundary_half_is_high() {
    assert_eq!(output_tier(&uniform(32768)), IconTier::High);
    assert_eq!(output_tier(&uniform(49151)), IconTier::High);
}

#[test]
fn output_tier_boundary_three_quarters_is_overamplified() {
    assert_eq!(output_tier(&uniform(49152)), IconTier::Overamplified);
    assert_eq!(output_tier(&uniform(VOLUME_NORM)), IconTier::Overamplified);
    assert_eq!(output_tier(&uniform(VOLUME_MAX)), IconTier::Overamplified);
}

#[test]
fn output_tier_muted_overrides_any_level() {
    for level in [0u32, 16384, 40000, VOLUME_MAX] {
        let mut v = uniform(level);
        v.set_muted(true);
        assert_eq!(output_tier(&v), IconTier::Muted);
    }
}

#[test]
fn input_tier_bands_break_at_33_and_66_percent() {
    // 33% of 65536 is 21626.88, 66% is 43253.76.
    assert_eq!(input_tier(&uniform(0)), IconTier::Low);
    assert_eq!(input_tier(&uniform(21626)), IconTier::Low);
    assert_eq!(input_tier(&uniform(21627)), IconTier::Medium);
    assert_eq!(input_tier(&uniform(43253)), IconTier::Medium);
    assert_eq!(input_tier(&uniform(43254)), IconTier::High);
    assert_eq!(input_tier(&uniform(VOLUME_NORM)), IconTier::High);
}

#[test]
fn input_tier_muted_overrides_any_level() {
    let mut v = uniform(50000);
    v.set_muted(true);
    assert_eq!(input_tier(&v), IconTier::Muted);
}

#[test]
fn icon_names_follow_tier() {
    assert_eq!(output_icon_name(IconTier::Muted), "audio-volume-muted-symbolic");
    assert_eq!(output_icon_name(IconTier::Low), "audio-volume-low-symbolic");
    assert_eq!(output_icon_name(IconTier::Medium), "audio-volume-medium-symbolic");
    assert_eq!(output_icon_name(IconTier::High), "audio-volume-high-symbolic");
    assert_eq!(
        output_icon_name(IconTier::Overamplified),
        "audio-volume-overamplified-symbolic"
    );
    assert_eq!(input_icon_name(IconTier::Muted), "microphone-sensitivity-muted-symbolic");
    assert_eq!(input_icon_name(IconTier::Low), "microphone-sensitivity-low-symbolic");
    assert_eq!(input_icon_name(IconTier::Medium), "microphone-sensitivity-medium-symbolic");
    assert_eq!(input_icon_name(IconTier::High), "microphone-sensitivity-high-symbolic");
}

#[test]
fn avg_is_arithmetic_mean() {
    let v = Volume::from_levels(vec![100, 200], false);
    assert_eq!(v.avg(), 150);
    let odd = Volume::from_levels(vec![1, 2], false);
    assert_eq!(odd.avg(), 1);
    let empty = Volume::from_levels(vec![], false);
    assert_eq!(empty.avg(), 0);
}

#[test]
fn levels_clamp_to_valid_range() {
    let v = Volume::new(1, 999_999_999);
    assert_eq!(v.level(0), VOLUME_MAX);
    let w = Volume::from_levels(vec![5, 999_999_999], false);
    assert_eq!(w.level(0), 5);
    assert_eq!(w.level(1), VOLUME_MAX);
}

#[test]
fn avg_percent_reports_slider_position() {
    assert_eq!(Volume::new(2, 39321).avg_percent(), 59);
    assert_eq!(Volume::new(2, VOLUME_NORM).avg_percent(), 100);
    assert_eq!(Volume::from_levels(vec![16384], false).avg_percent(), 25);
    assert_eq!(Volume::from_levels(vec![], false).avg_percent(), 0);
}

#[test]
fn percent_maps_linearly_and_clamps() {
    assert_eq!(percent_to_level(0), 0);
    assert_eq!(percent_to_level(60), 39321);
    assert_eq!(percent_to_level(100), VOLUME_NORM);
    assert_eq!(percent_to_level(400), VOLUME_MAX);
    assert_eq!(percent_to_level(500), VOLUME_MAX);
}
