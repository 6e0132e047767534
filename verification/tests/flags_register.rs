use fairnes::cpu::flags_register::FlagsRegister;

fn cleared() -> FlagsRegister {
    FlagsRegister {
        carry: false,
        zero: false,
        interrupt_disable: false,
        decimal: false,
        overflow: false,
        negative: false,
    }
}

#[test]
fn default_flags_are_clear() {
    let f = FlagsRegister::default();
    assert!(!f.carry && !f.zero && !f.interrupt_disable && !f.decimal && !f.overflow && !f.negative);
}

#[test]
fn get_of_clear_flags_is_only_bit_five() {
    assert_eq!(cleared().get(), 0x20);
}

#[test]
fn get_places_each_flag_in_its_bit() {
    let mut f = cleared();
    f.carry = true;
    assert_eq!(f.get(), 0x21);
    let mut f = cleared();
    f.zero = true;
    assert_eq!(f.get(), 0x22);
    let mut f = cleared();
    f.interrupt_disable = true;
    assert_eq!(f.get(), 0x24);
    let mut f = cleared();
    f.decimal = true;
    assert_eq!(f.get(), 0x28);
    let mut f = cleared();
    f.overflow = true;
    assert_eq!(f.get(), 0x60);
    let mut f = cleared();
    f.negative = true;
    assert_eq!(f.get(), 0xA0);
}

#[test]
fn get_of_all_flags_is_ef() {
    let f = FlagsRegister {
        carry: true,
        zero: true,
        interrupt_disable: true,
        decimal: true,
        overflow: true,
        negative: true,
    };
    assert_eq!(f.get(), 0xEF);
}

#[test]
fn set_loads_each_bit() {
    let mut f = cleared();
    f.set(0x01);
    assert!(f.carry && !f.zero && !f.interrupt_disable && !f.decimal && !f.overflow && !f.negative);
    f.set(0x02);
    assert!(!f.carry && f.zero);
    f.set(0x04);
    assert!(f.interrupt_disable && !f.zero);
    f.set(0x08);
    assert!(f.decimal && !f.interrupt_disable);
    f.set(0x40);
    assert!(f.overflow && !f.decimal);
    f.set(0x80);
    assert!(f.negative && !f.overflow);
}

#[test]
fn set_ignores_bits_four_and_five() {
    let mut f = FlagsRegister::default();
    f.set(0x30);
    assert!(!f.carry && !f.zero && !f.interrupt_disable && !f.decimal && !f.overflow && !f.negative);
}

#[test]
fn get_after_set_clears_bit_four_and_sets_bit_five() {
    for b in 0..=255u8 {
        let mut f = FlagsRegister::default();
        f.set(b);
        assert_eq!(f.get(), (b & 0xCF) | 0x20);
    }
}

#[test]
fn set_of_get_restores_every_flag() {
    for bits in 0..64u8 {
        let f = FlagsRegister {
            carry: bits & 1 != 0,
            zero: bits & 2 != 0,
            interrupt_disable: bits & 4 != 0,
            decimal: bits & 8 != 0,
            overflow: bits & 16 != 0,
            negative: bits & 32 != 0,
        };
        let mut g = FlagsRegister::default();
        g.set(f.get());
        assert_eq!(
            (g.carry, g.zero, g.interrupt_disable, g.decimal, g.overflow, g.negative),
            (f.carry, f.zero, f.interrupt_disable, f.decimal, f.overflow, f.negative)
        );
    }
}
