use rustnes::cpu::status::{CPUStatus, FLAG_C, FLAG_D, FLAG_N};

#[test]
fn ops() {
    let a = CPUStatus::new(0b10000010);
    let b = CPUStatus::new(!a.bits());
    assert_eq!(b.bits(), 0b01111101);

    let a = CPUStatus::new(0b10000010);
    let b = CPUStatus::new(a.bits() | FLAG_D);
    assert_eq!(b.bits(), 0b10001010);
}

#[test]
fn is_set() {
    let a = CPUStatus::new(0b01010101);

    assert!(a.is_set(0b01010101));
    assert!(a.is_set(0b00000001));

    assert!(!a.is_set(0b00000010));
    assert!(!a.is_set(0b10101010));
    assert!(!a.is_set(0b00000011));
}

#[test]
fn set() {
    let mut a = CPUStatus::new(0b00100000);

    a.set(FLAG_C);
    assert_eq!(a.bits(), 0b00100001);

    a.set(FLAG_N);
    assert_eq!(a.bits(), 0b10100001);
}

#[test]
fn unset() {
    let mut a = CPUStatus::new(0b11111111);

    a.unset(FLAG_C);
    assert_eq!(a.bits(), 0b11111110);

    a.unset(FLAG_N);
    assert_eq!(a.bits(), 0b01111110);
}
