use pl011::{
    BaseAddress, FixedAddress, CONTROL_REGISTER_OFFSET, DATA_REGISTER_OFFSET,
    ERROR_CLEAR_REGISTER_OFFSET, FLAG_REGISTER_OFFSET, INTERRUPT_MASK_SET_CLEAR_REGISTER_OFFSET,
    RECEIVE_STATUS_REGISTER_OFFSET, UART,
};

#[test]
fn fixed_address_is_zero_sized() {
    let uart = UART::new(FixedAddress::<0x0900_0000>);
    assert_eq!(core::mem::size_of_val(&uart), 0);
    assert_eq!(uart.base_address(), 0x0900_0000);
    assert_eq!(FixedAddress::<0x1000>.base_address(), 0x1000);
}

#[test]
fn runtime_address_is_pointer_sized() {
    let uart = UART::new(0x3F20_1000usize);
    assert_eq!(core::mem::size_of_val(&uart), core::mem::size_of::<usize>());
    assert_eq!(uart.base_address(), 0x3F20_1000);
    let copy = uart;
    assert_eq!(copy.base_address(), uart.base_address());
}

#[test]
fn register_addresses_add_the_offset() {
    let uart = UART::new(0x1000usize);
    assert_eq!(uart.register_address(DATA_REGISTER_OFFSET), Some(0x1000));
    assert_eq!(uart.register_address(FLAG_REGISTER_OFFSET), Some(0x1018));
    assert_eq!(uart.register_address(CONTROL_REGISTER_OFFSET), Some(0x1030));
    assert_eq!(uart.register_address(INTERRUPT_MASK_SET_CLEAR_REGISTER_OFFSET), Some(0x1038));
    assert_eq!(
        uart.register_address(RECEIVE_STATUS_REGISTER_OFFSET),
        uart.register_address(ERROR_CLEAR_REGISTER_OFFSET)
    );
}

#[test]
fn register_address_past_the_address_space_is_none() {
    let uart = UART::new(usize::MAX - 3);
    assert_eq!(uart.register_address(3), Some(usize::MAX));
    assert_eq!(uart.register_address(4), None);
    assert_eq!(UART::new(FixedAddress::<{ usize::MAX }>).register_address(1), None);
}
