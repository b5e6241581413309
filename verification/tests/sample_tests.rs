use decal::sample::{downmix_pair, mul_amp, Volume};

#[test]
fn unity_volume_keeps_samples() {
    let v = Volume::unity();
    assert_eq!(mul_amp(1234, v), 1234);
    assert_eq!(mul_amp(-1234, v), -1234);
    assert_eq!(mul_amp(i16::MIN, v), i16::MIN);
    assert_eq!(mul_amp(i16::MAX, v), i16::MAX);
}

#[test]
fn half_volume_rounds_toward_zero() {
    let v = Volume::from_raw(32768);
    assert_eq!(mul_amp(3, v), 1);
    assert_eq!(mul_amp(-3, v), -1);
    assert_eq!(mul_amp(1, v), 0);
    assert_eq!(mul_amp(-1, v), 0);
}

#[test]
fn gain_above_unity_clamps() {
    let v = Volume::from_raw(4 * 65536);
    assert_eq!(mul_amp(20000, v), i16::MAX);
    assert_eq!(mul_amp(-20000, v), i16::MIN);
    assert_eq!(mul_amp(100, v), 400);
}

#[test]
fn downmix_is_the_scaled_mean() {
    assert_eq!(downmix_pair(100, 200, Volume::unity()), 150);
    assert_eq!(downmix_pair(100, 201, Volume::unity()), 150);
    assert_eq!(downmix_pair(-100, -201, Volume::unity()), -150);
    assert_eq!(downmix_pair(i16::MAX, i16::MAX, Volume::unity()), i16::MAX);
    assert_eq!(downmix_pair(i16::MIN, i16::MIN, Volume::unity()), i16::MIN);
    assert_eq!(downmix_pair(1000, 3000, Volume::from_percent(50)), 1000);
}
