use signal_core::operation::{parse_operation, operation_or_default, OperationKind, ParsedOperation};
use signal_core::pipeline::{process_signal, SignalParams};
use signal_core::signal::{generate_cosine_signal, generate_signal, generate_time_vector};

const TWO_PI: f64 = 2.0 * std::f64::consts::PI;

fn bits_vec(xs: &[f64]) -> Vec<u64> {
    xs.iter().map(|x| x.to_bits()).collect()
}

fn vals(bs: &[u64]) -> Vec<f64> {
    bs.iter().map(|b| f64::from_bits(*b)).collect()
}

fn add_bits(x: u64, y: u64) -> u64 {
    (f64::from_bits(x) + f64::from_bits(y)).to_bits()
}

fn sub_bits(x: u64, y: u64) -> u64 {
    (f64::from_bits(x) - f64::from_bits(y)).to_bits()
}

fn mul_bits(x: u64, y: u64) -> u64 {
    (f64::from_bits(x) * f64::from_bits(y)).to_bits()
}

fn abs_max_bits(acc: u64, x: u64) -> u64 {
    f64::max(f64::from_bits(acc), f64::from_bits(x).abs()).to_bits()
}

fn square_add_bits(acc: u64, x: u64) -> u64 {
    let v = f64::from_bits(x);
    (f64::from_bits(acc) + v * v).to_bits()
}

fn rms_finish_bits(sum: u64, n: usize) -> u64 {
    (f64::from_bits(sum) / n as f64).sqrt().to_bits()
}

fn sine_wave(amplitude: f64, frequency: f64, phase: f64) -> impl Fn(u64) -> u64 {
    move |t: u64| (amplitude * (TWO_PI * frequency * f64::from_bits(t) + phase).sin()).to_bits()
}

fn cosine_wave(amplitude: f64, frequency: f64, phase: f64) -> impl Fn(u64) -> u64 {
    move |t: u64| (amplitude * (TWO_PI * frequency * f64::from_bits(t) + phase).cos()).to_bits()
}

#[test]
fn parse_recognizes_the_three_operations() {
    assert!(matches!(
        parse_operation("add"),
        ParsedOperation::Known(OperationKind::Add)
    ));
    assert!(matches!(
        parse_operation("subtract"),
        ParsedOperation::Known(OperationKind::Subtract)
    ));
    assert!(matches!(
        parse_operation("multiply"),
        ParsedOperation::Known(OperationKind::Multiply)
    ));
}

#[test]
fn parse_keeps_the_unrecognized_string() {
    match parse_operation("bogus") {
        ParsedOperation::Unknown(original) => assert_eq!(original, "bogus"),
        ParsedOperation::Known(_) => panic!("an unrecognized string must parse as Unknown"),
    }
    assert!(matches!(parse_operation("Add"), ParsedOperation::Unknown(_)));
    assert!(matches!(parse_operation(""), ParsedOperation::Unknown(_)));
}

#[test]
fn unknown_parse_defaults_to_add() {
    let parsed = parse_operation("bogus");
    assert_eq!(operation_or_default(parsed), OperationKind::Add);
    let known = parse_operation("multiply");
    assert_eq!(operation_or_default(known), OperationKind::Multiply);
}

#[test]
fn time_axis_of_ten_samples_at_1khz() {
    let fs: f64 = 1000.0;
    let t = vals(&generate_time_vector(10, move |n: usize| (n as f64 / fs).to_bits()));
    assert_eq!(t.len(), 10);
    assert_eq!(t[0], 0.0);
    assert!((t[9] - 0.009).abs() <= 1e-10);
}

#[test]
fn time_axis_of_zero_samples_is_empty() {
    let fs: f64 = 1000.0;
    let t = generate_time_vector(0, move |n: usize| (n as f64 / fs).to_bits());
    assert!(t.is_empty());
}

#[test]
fn sine_signal_starts_at_zero_for_zero_phase() {
    let time = bits_vec(&[0.0, 0.25, 0.5, 0.75, 1.0]);
    let x = vals(&generate_signal(&time, sine_wave(1.0, 1.0, 0.0)));
    assert_eq!(x.len(), 5);
    assert!(x[0].abs() <= 1e-10);
}

#[test]
fn cosine_signal_starts_at_amplitude_for_zero_phase() {
    let time = bits_vec(&[0.0, 0.25]);
    let x = vals(&generate_cosine_signal(&time, cosine_wave(2.0, 1.0, 0.0)));
    assert_eq!(x.len(), 2);
    assert_eq!(x[0], 2.0);
    assert!(x[1].abs() <= 1e-10);
}

#[test]
fn end_to_end_add_of_two_unit_sines() {
    let fs: f64 = 4.0;
    let params = SignalParams {
        a1: 1.0f64.to_bits(),
        f1: 1.0f64.to_bits(),
        phi1: 0.0f64.to_bits(),
        a2: 1.0f64.to_bits(),
        f2: 1.0f64.to_bits(),
        phi2: 0.0f64.to_bits(),
        operation: String::from("add"),
        samples: 4,
        fs: fs.to_bits(),
    };
    let r = process_signal(
        &params,
        move |n: usize| (n as f64 / fs).to_bits(),
        sine_wave(1.0, 1.0, 0.0),
        sine_wave(1.0, 1.0, 0.0),
        add_bits,
        sub_bits,
        mul_bits,
        abs_max_bits,
        square_add_bits,
        rms_finish_bits,
    );
    let t = vals(&r.t);
    let x1 = vals(&r.x1);
    let x2 = vals(&r.x2);
    let y = vals(&r.y);
    assert_eq!(t, vec![0.0, 0.25, 0.5, 0.75]);
    let expected = [0.0, 1.0, 0.0, -1.0];
    for n in 0..4 {
        assert!((x1[n] - expected[n]).abs() <= 1e-9);
        assert!((x2[n] - expected[n]).abs() <= 1e-9);
        assert!((y[n] - 2.0 * expected[n]).abs() <= 1e-9);
    }
    let max_amp = f64::from_bits(r.max_amplitude);
    let rms = f64::from_bits(r.rms);
    assert!((max_amp - 2.0).abs() <= 1e-9);
    assert!((rms - 2.0f64.sqrt()).abs() <= 1e-9);
}

#[test]
fn end_to_end_zero_samples() {
    let fs: f64 = 8.0;
    let params = SignalParams {
        a1: 1.0f64.to_bits(),
        f1: 1.0f64.to_bits(),
        phi1: 0.0f64.to_bits(),
        a2: 1.0f64.to_bits(),
        f2: 1.0f64.to_bits(),
        phi2: 0.0f64.to_bits(),
        operation: String::from("multiply"),
        samples: 0,
        fs: fs.to_bits(),
    };
    let r = process_signal(
        &params,
        move |n: usize| (n as f64 / fs).to_bits(),
        sine_wave(1.0, 1.0, 0.0),
        sine_wave(1.0, 1.0, 0.0),
        add_bits,
        sub_bits,
        mul_bits,
        abs_max_bits,
        square_add_bits,
        rms_finish_bits,
    );
    assert!(r.t.is_empty());
    assert!(r.x1.is_empty());
    assert!(r.x2.is_empty());
    assert!(r.y.is_empty());
    assert_eq!(f64::from_bits(r.max_amplitude), f64::NEG_INFINITY);
    assert_eq!(f64::from_bits(r.rms), 0.0);
}

#[test]
fn end_to_end_subtract_cancels_identical_sines() {
    let fs: f64 = 4.0;
    let params = SignalParams {
        a1: 1.0f64.to_bits(),
        f1: 1.0f64.to_bits(),
        phi1: 0.0f64.to_bits(),
        a2: 1.0f64.to_bits(),
        f2: 1.0f64.to_bits(),
        phi2: 0.0f64.to_bits(),
        operation: String::from("subtract"),
        samples: 4,
        fs: fs.to_bits(),
    };
    let r = process_signal(
        &params,
        move |n: usize| (n as f64 / fs).to_bits(),
        sine_wave(1.0, 1.0, 0.0),
        sine_wave(1.0, 1.0, 0.0),
        add_bits,
        sub_bits,
        mul_bits,
        abs_max_bits,
        square_add_bits,
        rms_finish_bits,
    );
    for b in &r.y {
        assert_eq!(f64::from_bits(*b), 0.0);
    }
    assert_eq!(f64::from_bits(r.max_amplitude), 0.0);
    assert_eq!(f64::from_bits(r.rms), 0.0);
}
