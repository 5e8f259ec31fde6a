use player_core::pts_to_micros;
use player_core::AppTheme;
use player_core::Config;
use player_core::DeviceType;
use player_core::TimeBase;

#[test]
fn device_names_round_trip() {
    let all = [
        DeviceType::Software,
        DeviceType::Cuda,
        DeviceType::D3d11va,
        DeviceType::D3d12va,
        DeviceType::Dxva2,
        DeviceType::Drm,
        DeviceType::MediaCodec,
        DeviceType::OpenCl,
        DeviceType::Qsv,
        DeviceType::Vaapi,
        DeviceType::Vdpau,
        DeviceType::VideoToolbox,
        DeviceType::Vulkan,
    ];
    for d in all {
        assert_eq!(DeviceType::from_str(d.short_name()), Ok(d));
    }
}

#[test]
fn device_user_facing_names() {
    assert_eq!(DeviceType::Software.name(), "None");
    assert_eq!(DeviceType::Cuda.name(), "CUDA");
    assert_eq!(DeviceType::Vaapi.name(), "VA-API");
    assert_eq!(DeviceType::Qsv.name(), "Intel Quick Video Sync");
    assert_eq!(DeviceType::Vaapi.short_name(), "vaapi");
    assert_eq!(DeviceType::VideoToolbox.short_name(), "videotoolbox");
}

#[test]
fn invalid_device_name_is_reported() {
    let err = DeviceType::from_str("quicksync").unwrap_err();
    assert_eq!(err.value, "quicksync");
    let err = DeviceType::from_str("").unwrap_err();
    assert_eq!(err.value, "");
    // Valid names are exact: case matters.
    assert!(DeviceType::from_str("VAAPI").is_err());
}

#[test]
fn config_defaults() {
    let config = Config::default();
    assert_eq!(config.app_theme, AppTheme::System);
    assert_eq!(config.hw_decoder, DeviceType::Vaapi);
    assert_eq!(DeviceType::default(), DeviceType::Vaapi);
}

#[test]
fn stream_time_conversion() {
    // Milliseconds time base: 2500 units are 2.5 seconds.
    let ms = TimeBase::new(1, 1000).unwrap();
    assert_eq!(pts_to_micros(2500, ms), Some(2_500_000));
    assert_eq!(pts_to_micros(0, ms), Some(0));
    assert_eq!(pts_to_micros(-2500, ms), Some(-2_500_000));

    // NTSC-style rational base: 3 units of 1001/30000 s.
    let ntsc = TimeBase::new(1001, 30000).unwrap();
    assert_eq!(pts_to_micros(3, ntsc), Some(100_100));

    // Rounds toward zero.
    let third = TimeBase::new(1, 3).unwrap();
    assert_eq!(pts_to_micros(1, third), Some(333_333));
    assert_eq!(pts_to_micros(-1, third), Some(-333_333));

    // A result past the 64-bit microsecond range is refused.
    let seconds = TimeBase::new(1, 1).unwrap();
    assert_eq!(pts_to_micros(i64::MAX, seconds), None);

    // A zero denominator is no time base.
    assert!(TimeBase::new(1, 0).is_none());
}
