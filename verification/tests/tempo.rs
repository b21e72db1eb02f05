use yatti::tempo_scaled;

#[test]
fn whole_bpm_from_100ms_interval() {
    assert_eq!(tempo_scaled(100_000_000, 0), Some(600));
}

#[test]
fn scaled_bpm_follows_precision() {
    assert_eq!(tempo_scaled(100_000_000, 1), Some(6_000));
    assert_eq!(tempo_scaled(100_000_000, 2), Some(60_000));
    assert_eq!(tempo_scaled(100_000_000, 5), Some(60_000_000));
}

#[test]
fn precision_above_five_is_clamped() {
    assert_eq!(tempo_scaled(100_000_000, 9), tempo_scaled(100_000_000, 5));
    assert_eq!(tempo_scaled(100_000_000, 255), Some(60_000_000));
}

#[test]
fn bpm_rounds_to_nearest() {
    // A 70 ms interval implies 857.142... beats per minute.
    assert_eq!(tempo_scaled(70_000_000, 0), Some(857));
    assert_eq!(tempo_scaled(70_000_000, 1), Some(8_571));
    // A 640 ms interval implies 93.75 beats per minute, which rounds up.
    assert_eq!(tempo_scaled(640_000_000, 0), Some(94));
    assert_eq!(tempo_scaled(640_000_000, 1), Some(938));
    assert_eq!(tempo_scaled(640_000_000, 2), Some(9_375));
}

#[test]
fn zero_interval_yields_no_tempo() {
    assert_eq!(tempo_scaled(0, 0), None);
    assert_eq!(tempo_scaled(0, 5), None);
}

#[test]
fn one_second_interval_is_sixty_bpm() {
    assert_eq!(tempo_scaled(1_000_000_000, 0), Some(60));
    assert_eq!(60.0 / 1.0, 60.0);
}
