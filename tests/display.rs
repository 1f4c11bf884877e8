use swinder::display::{fit_line, params_line, turns_line};
use swinder::params::MachineParameters;

#[test]
fn progress_line() {
    assert_eq!(turns_line(120, 400), b"turns: 120/400  ".to_vec());
    assert_eq!(turns_line(0, 0), b"turns: 0/0      ".to_vec());
    assert_eq!(turns_line(123456, 7654321), b"turns: 123456/76".to_vec());
}

#[test]
fn parameter_line() {
    assert_eq!(params_line(&MachineParameters::new()), b"L5.0cm R0.5cm   ".to_vec());
}

#[test]
fn lines_are_fitted() {
    assert_eq!(fit_line(Vec::new()), vec![b' '; 16]);
    assert_eq!(fit_line(vec![b'x'; 20]), vec![b'x'; 16]);
}
