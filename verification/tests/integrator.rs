use trust_consensus::manifestation::ManifestationIntegrator;

const FLOOR: u64 = 10_000_000;

fn store_of(values: &[f32]) -> Vec<u8> {
    let mut out = Vec::new();
    for v in values {
        out.extend_from_slice(&v.to_le_bytes());
    }
    out
}

#[test]
fn invalid_readings_degrade_to_the_floor() {
    let nan = ManifestationIntegrator::calculate_potential_multiplier(f32::NAN.to_bits());
    let minus_one = ManifestationIntegrator::calculate_potential_multiplier((-1.0f32).to_bits());
    let plus_inf = ManifestationIntegrator::calculate_potential_multiplier(f32::INFINITY.to_bits());
    assert_eq!(nan, FLOOR);
    assert_eq!(minus_one, FLOOR);
    assert_eq!(plus_inf, FLOOR);
    let minus_inf =
        ManifestationIntegrator::calculate_potential_multiplier(f32::NEG_INFINITY.to_bits());
    assert_eq!(minus_inf, FLOOR);
    let tiny_negative =
        ManifestationIntegrator::calculate_potential_multiplier((-1.0e-30f32).to_bits());
    assert_eq!(tiny_negative, FLOOR);
}

#[test]
fn hundredth_yields_two() {
    let r = ManifestationIntegrator::calculate_potential_multiplier(0.01f32.to_bits());
    assert_eq!(r, 2);
    // agrees with the floating-point reference computation
    assert_eq!((0.01f32 / 0.005f32).floor() as u64, 2);
}

#[test]
fn zero_readings_yield_zero() {
    assert_eq!(ManifestationIntegrator::calculate_potential_multiplier(0.0f32.to_bits()), 0);
    assert_eq!(ManifestationIntegrator::calculate_potential_multiplier((-0.0f32).to_bits()), 0);
    let subnormal = ManifestationIntegrator::calculate_potential_multiplier(1u32);
    assert_eq!(subnormal, 0);
}

#[test]
fn unit_reading_yields_two_hundred() {
    let r = ManifestationIntegrator::calculate_potential_multiplier(1.0f32.to_bits());
    assert_eq!(r, 200);
    assert_eq!((1.0f32 / 0.005f32).floor() as u64, 200);
}

#[test]
fn enormous_readings_saturate() {
    let r = ManifestationIntegrator::calculate_potential_multiplier(f32::MAX.to_bits());
    assert_eq!(r, u64::MAX);
}

#[test]
fn fetch_reads_the_indexed_record() {
    let store = store_of(&[0.01, 1.0, -1.0]);
    assert_eq!(
        ManifestationIntegrator::get_potential_for_svt(&store, 0),
        Some(0.01f32.to_bits())
    );
    assert_eq!(
        ManifestationIntegrator::get_potential_for_svt(&store, 1),
        Some(1.0f32.to_bits())
    );
    assert_eq!(
        ManifestationIntegrator::get_potential_for_svt(&store, 2),
        Some((-1.0f32).to_bits())
    );
    assert_eq!(ManifestationIntegrator::get_potential_for_svt(&store, 3), None);
}

#[test]
fn fetch_fails_on_partial_records() {
    let truncated = vec![0u8; 7];
    assert_eq!(ManifestationIntegrator::get_potential_for_svt(&truncated, 1), None);
    assert_eq!(
        ManifestationIntegrator::get_potential_for_svt(&truncated, 0),
        Some(0)
    );
}

#[test]
fn integrate_returns_zero_when_the_read_fails() {
    let empty: Vec<u8> = Vec::new();
    assert_eq!(ManifestationIntegrator::integrate_potential_modifier(0, &empty), 0);
    let store = store_of(&[0.01]);
    assert_eq!(ManifestationIntegrator::integrate_potential_modifier(5, &store), 0);
}

#[test]
fn integrate_converts_present_records() {
    let store = store_of(&[0.01, f32::NAN, 1.0]);
    assert_eq!(ManifestationIntegrator::integrate_potential_modifier(0, &store), 2);
    assert_eq!(ManifestationIntegrator::integrate_potential_modifier(1, &store), FLOOR);
    assert_eq!(ManifestationIntegrator::integrate_potential_modifier(2, &store), 200);
}
