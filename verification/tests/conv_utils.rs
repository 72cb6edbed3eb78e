//! The ergonomic call-site helpers.

use conv2::{ConvAsUtil, ConvUtil, DefaultApprox, Fp32, Saturate, Unrepresentable, UnwrapOk};

fn fp32(x: f32) -> Fp32 {
    Fp32::from_bits(x.to_bits())
}

#[test]
fn test_approx() {
    assert_eq!(fp32(1.5).approx(), Ok(1i32));
    assert_eq!(fp32(1.5).approx_by::<DefaultApprox>(), Ok(1));
    assert_eq!(fp32(1.5).approx_as::<i32>(), Ok(1));
    assert_eq!(fp32(1.5).approx_as_by::<i32, DefaultApprox>(), Ok(1));
}

#[test]
fn test_into() {
    let v = "ABC".into_as::<Vec<u8>>();
    assert_eq!(&*v, &[0x41, 0x42, 0x43]);
}

#[test]
fn test_value() {
    assert_eq!((123u32).value_as::<u8>(), Ok(123));
}

#[test]
fn test_whizzo() {
    assert_eq!(fp32(-1.0).approx_as::<u8>().saturate(), Ok::<_, Unrepresentable<_>>(0u8));
    assert_eq!((-1i32).value_as::<u8>().saturate().unwrap_ok(), 0u8);
}
