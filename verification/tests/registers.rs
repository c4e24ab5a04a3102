use chust8::registers::{DataRegister, IRegister, Registers};

#[test]
fn test_i_register() {
    let mut i_register = IRegister::new();
    assert_eq!(i_register.get(), 0);

    assert!(!i_register.add(1));
    assert_eq!(i_register.get(), 1);

    i_register.set(std::u16::MAX);
    assert_eq!(i_register.get(), std::u16::MAX);
    assert!(i_register.add(1));

    assert_eq!(i_register.get(), 0);
}

#[test]
fn test_data_register_add_sub() {
    let mut data_register = DataRegister::new();
    assert_eq!(data_register.get(), 0);

    assert!(!data_register.add(1));
    assert_eq!(data_register.get(), 1);

    data_register.set(std::u8::MAX);
    assert_eq!(data_register.get(), std::u8::MAX);
    assert!(data_register.add(1));

    assert_eq!(data_register.get(), 0);

    // The flag tells that no borrow occurred: it is clear when the
    // subtraction wraps and set when it does not.
    assert!(!data_register.substract(1));
    assert_eq!(data_register.get(), std::u8::MAX);

    assert!(data_register.substract(1));
    assert_eq!(data_register.get(), std::u8::MAX - 1);
}

#[test]
fn test_data_register_shift() {
    let mut data_register = DataRegister::new();
    assert_eq!(data_register.get(), 0);

    let test_value = 0b1001001;

    data_register.set(test_value);
    assert_eq!(data_register.get(), test_value);

    assert_eq!(data_register.shift_right(), 0b1);
    assert_eq!(data_register.get(), test_value >> 1);

    assert_eq!(data_register.shift_right(), 0b0);
    assert_eq!(data_register.get(), test_value >> 2);

    data_register.set(test_value);
    assert_eq!(data_register.get(), test_value);

    // The bit that leaves the register is its highest one, which is clear in
    // the test value and set after the first shift.
    assert_eq!(data_register.shift_left(), 0b0);
    assert_eq!(data_register.get(), test_value << 1);

    assert_eq!(data_register.shift_left(), 0b1);
    assert_eq!(data_register.get(), test_value << 2);
}

#[test]
fn data_register_shift_left_reports_the_highest_bit() {
    let mut data_register = DataRegister::new();
    data_register.set(0b1000_0001);
    assert_eq!(data_register.shift_left(), 1);
    assert_eq!(data_register.get(), 0b0000_0010);
    data_register.set(0b0100_0000);
    assert_eq!(data_register.shift_left(), 0);
    assert_eq!(data_register.get(), 0b1000_0000);
    data_register.set(0xFF);
    assert_eq!(data_register.shift_right(), 1);
    assert_eq!(data_register.get(), 0x7F);
}

#[test]
fn data_register_substract_reports_no_borrow() {
    let mut data_register = DataRegister::new();
    assert!(data_register.substract(0));
    assert_eq!(data_register.get(), 0);
    data_register.set(7);
    assert!(data_register.substract(7));
    assert_eq!(data_register.get(), 0);
    data_register.set(7);
    assert!(!data_register.substract(8));
    assert_eq!(data_register.get(), 255);
    assert!(data_register.substract(255));
    assert_eq!(data_register.get(), 0);
    assert!(!data_register.substract(255));
    assert_eq!(data_register.get(), 1);
}

#[test]
fn initialize_all_gives_sixteen_zero_registers() {
    let all = DataRegister::initialize_all();
    assert_eq!(all.len(), 16);
    assert!(all.is_full());
    assert!(all.iter().all(|register| register.get() == 0));
}

#[test]
fn register_file_get_and_set() {
    let mut registers = Registers::new();
    for index in 0..16u8 {
        assert_eq!(registers.get(index), 0);
    }
    for index in 0..16u8 {
        registers.set(index, index * 3 + 1);
    }
    for index in 0..16u8 {
        assert_eq!(registers.get(index), index * 3 + 1);
    }
    registers.set(4, 200);
    assert_eq!(registers.get(4), 200);
    assert_eq!(registers.get(3), 10);
    assert_eq!(registers.get(5), 16);
    assert_eq!(registers.address(), 0);
}

#[test]
fn register_file_add_wraps_with_carry() {
    let mut registers = Registers::new();
    registers.set(2, 255);
    assert!(registers.add(2, 1));
    assert_eq!(registers.get(2), 0);
    assert!(!registers.add(2, 255));
    assert_eq!(registers.get(2), 255);
    assert!(registers.add(2, 255));
    assert_eq!(registers.get(2), 254);
    assert!(!registers.add(2, 0));
    assert_eq!(registers.get(2), 254);
}

#[test]
fn register_file_subtract_reports_no_borrow() {
    let mut registers = Registers::new();
    assert!(!registers.subtract(7, 1));
    assert_eq!(registers.get(7), 255);
    assert!(registers.subtract(7, 1));
    assert_eq!(registers.get(7), 254);
    assert!(registers.subtract(7, 254));
    assert_eq!(registers.get(7), 0);
    assert!(registers.subtract(7, 0));
    assert_eq!(registers.get(7), 0);
}

#[test]
fn register_file_shifts() {
    let mut registers = Registers::new();
    registers.set(1, 0b1010_0101);
    assert_eq!(registers.shift_left(1), 1);
    assert_eq!(registers.get(1), 0b0100_1010);
    assert_eq!(registers.shift_left(1), 0);
    assert_eq!(registers.get(1), 0b1001_0100);
    assert_eq!(registers.shift_right(1), 0);
    assert_eq!(registers.get(1), 0b0100_1010);
    registers.set(1, 3);
    assert_eq!(registers.shift_right(1), 1);
    assert_eq!(registers.get(1), 1);
}

#[test]
fn register_file_address_register() {
    let mut registers = Registers::new();
    registers.set_address(0xFFF0);
    assert_eq!(registers.address(), 0xFFF0);
    assert!(!registers.add_address(0x000F));
    assert_eq!(registers.address(), 0xFFFF);
    assert!(registers.add_address(2));
    assert_eq!(registers.address(), 1);
    assert_eq!(registers.get(15), 0);
}
