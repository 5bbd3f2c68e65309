use pl011::ints::{NonZeroU16, NonZeroU8, U2, U3, U6};
use pl011::registers::{
    ControlRegister, DataRegister, FIFOLevelSelect, FlagRegister, FractionalBaudRateDivisorRegister,
    IntegerBaudRateDivisorRegister, InterruptFIFOLevelSelectRegister,
    InterruptMaskSetClearRegister, IrDALowPowerRegister, LineControlRegister,
    ReceiveStatusRegister, WordLength,
};

#[test]
fn word_length_patterns_round_trip() {
    let all = [
        (0b00, WordLength::FiveBits),
        (0b01, WordLength::SixBits),
        (0b10, WordLength::SevenBits),
        (0b11, WordLength::EightBits),
    ];
    for &(bits, length) in all.iter() {
        let pattern = U2::new(bits).unwrap();
        assert_eq!(WordLength::from_bits(pattern), length);
        assert_eq!(length.to_bits(), pattern);
    }
    assert_eq!(WordLength::from_bits(U2::new(0b11).unwrap()), WordLength::EightBits);
    assert_eq!(WordLength::EightBits.to_bits().value(), 0b11);
}

#[test]
fn fifo_level_reserved_patterns_fail_with_the_pattern() {
    for bits in [0b101u8, 0b110, 0b111] {
        let pattern = U3::new(bits).unwrap();
        assert_eq!(FIFOLevelSelect::try_from_bits(pattern), Err(pattern));
    }
    let levels = [
        FIFOLevelSelect::OneEighth,
        FIFOLevelSelect::OneFourth,
        FIFOLevelSelect::OneHalf,
        FIFOLevelSelect::ThreeFourth,
        FIFOLevelSelect::SevenEighth,
    ];
    for (bits, level) in levels.iter().enumerate() {
        let pattern = U3::new(bits as u8).unwrap();
        assert_eq!(FIFOLevelSelect::try_from_bits(pattern), Ok(*level));
        assert_eq!(level.to_bits(), pattern);
    }
}

#[test]
fn fifo_level_register_fields_decode_from_raw() {
    let r = InterruptFIFOLevelSelectRegister::from_bits(0b110_011);
    assert_eq!(r.receive_interrupt_FIFO_level_select(), Err(U3::new(0b110).unwrap()));
    assert_eq!(r.transmit_interrupt_FIFO_level_select(), Ok(FIFOLevelSelect::ThreeFourth));
    let r = r.with_receive_interrupt_FIFO_level_select(FIFOLevelSelect::OneFourth);
    assert_eq!(r.to_bits(), 0b001_011);
    let r = r.with_transmit_interrupt_FIFO_level_select(FIFOLevelSelect::SevenEighth);
    assert_eq!(r.to_bits(), 0b001_100);
    assert_eq!(r.receive_interrupt_FIFO_level_select(), Ok(FIFOLevelSelect::OneFourth));
}

#[test]
fn fifo_level_register_resets_to_one_half() {
    let r = InterruptFIFOLevelSelectRegister::default();
    assert_eq!(r.to_bits(), 0x12);
    assert_eq!(r.receive_interrupt_FIFO_level_select(), Ok(FIFOLevelSelect::default()));
    assert_eq!(r.transmit_interrupt_FIFO_level_select(), Ok(FIFOLevelSelect::OneHalf));
}

#[test]
fn data_register_overrun_and_data_do_not_interfere() {
    let r = DataRegister::default().with_overrun_error(true).with_data(0xFF);
    assert!(r.overrun_error());
    assert_eq!(r.data(), 0xFF);
    assert_eq!(r.to_bits(), (1 << 11) | 0xFF);
    assert!(!r.break_error());
    assert!(!r.parity_error());
    assert!(!r.framing_error());
}

#[test]
fn integer_baud_rate_divisor_zero_is_reserved() {
    let zero = IntegerBaudRateDivisorRegister::from_bits(0x0000);
    assert_eq!(zero.integer_baud_rate_divisor(), Err(0));
    let one = IntegerBaudRateDivisorRegister::from_bits(0x0001);
    assert_eq!(one.integer_baud_rate_divisor().map(|v| v.get()), Ok(0x0001));
    let max = IntegerBaudRateDivisorRegister::from_bits(0xFFFF);
    assert_eq!(max.integer_baud_rate_divisor().map(|v| v.get()), Ok(0xFFFF));
    assert_eq!(IntegerBaudRateDivisorRegister::default().integer_baud_rate_divisor(), Err(0));
}

#[test]
fn integer_baud_rate_divisor_round_trips() {
    for v in [1u16, 2, 0x1234, 0xFFFF] {
        let d = NonZeroU16::new(v).unwrap();
        let r = IntegerBaudRateDivisorRegister::default().with_integer_baud_rate_divisor(d);
        assert_eq!(r.integer_baud_rate_divisor(), Ok(d));
        assert_eq!(r.to_bits(), v);
    }
}

#[test]
fn irda_low_power_divisor_round_trips_and_rejects_zero() {
    assert_eq!(IrDALowPowerRegister::default().low_power_divisor_value(), Err(0));
    for v in [1u8, 0x80, 0xFF] {
        let d = NonZeroU8::new(v).unwrap();
        let r = IrDALowPowerRegister::default().with_low_power_divisor_value(d);
        assert_eq!(r.low_power_divisor_value(), Ok(d));
        assert_eq!(r.to_bits(), v);
    }
}

#[test]
fn fractional_divisor_uses_the_low_six_bits() {
    let r = FractionalBaudRateDivisorRegister::from_bits(0xFF);
    assert_eq!(r.fractional_baud_rate_divisor().value(), 63);
    let r = r.with_fractional_baud_rate_divisor(U6::new(5).unwrap());
    assert_eq!(r.to_bits(), 0xC5);
    assert_eq!(r.fractional_baud_rate_divisor(), U6::new(5).unwrap());
    let r = FractionalBaudRateDivisorRegister::default()
        .with_fractional_baud_rate_divisor(U6::new(63).unwrap());
    assert_eq!(r.to_bits(), 63);
}

#[test]
fn line_control_fields_round_trip_and_stay_apart() {
    for length in [
        WordLength::FiveBits,
        WordLength::SixBits,
        WordLength::SevenBits,
        WordLength::EightBits,
    ] {
        let r = LineControlRegister::default().with_word_length(length);
        assert_eq!(r.word_length(), length);
        let r = LineControlRegister::from_bits(0xFFFF).with_word_length(length);
        assert_eq!(r.word_length(), length);
        assert!(r.stick_parity() && r.enable_fifos());
    }
    let r = LineControlRegister::default()
        .with_word_length(WordLength::EightBits)
        .with_enable_fifos(true)
        .with_parity_enable(true);
    assert_eq!(r.to_bits(), 0b0111_0010);
    assert!(!r.send_break());
    assert!(!r.two_stop_bits_select());
    assert!(!r.even_parity_select());
    assert!(!r.stick_parity());
    let r = r.with_stick_parity(true).with_send_break(true);
    assert_eq!(r.word_length(), WordLength::EightBits);
    assert_eq!(r.to_bits(), 0b1111_0011);
    let r = r.with_two_stop_bits_select(true).with_even_parity_select(true);
    assert_eq!(r.to_bits(), 0b1111_1111);
    assert_eq!(LineControlRegister::default().word_length(), WordLength::default());
}

#[test]
fn control_register_flags_round_trip() {
    let r = ControlRegister::default()
        .with_UART_enable(true)
        .with_transmit_enable(true)
        .with_receive_enable(true);
    assert_eq!(r.to_bits(), 0x0301);
    assert!(r.UART_enable() && r.transmit_enable() && r.receive_enable());
    assert!(!r.SIR_enable() && !r.loopback_enable());
    let r = ControlRegister::from_bits(0xFFFF).with_loopback_enable(false).with_out1(false);
    assert_eq!(r.to_bits(), 0xEF7F);
    assert!(r.CTS_hardware_flow_control_enable());
    assert!(r.RTS_hardware_flow_control_enable());
    assert!(r.out2() && !r.out1());
    assert!(r.request_to_send() && r.data_transmit_ready());
    let r = r
        .with_CTS_hardware_flow_control_enable(false)
        .with_RTS_hardware_flow_control_enable(false)
        .with_out2(false)
        .with_request_to_send(false)
        .with_data_transmit_ready(false)
        .with_SIR_enable(false);
    assert_eq!(r.to_bits(), 0x037D);
    assert_eq!(ControlRegister::default().to_bits(), 0);
}

#[test]
fn flag_register_reads_each_bit() {
    let r = FlagRegister::from_bits(0b1_1001_0000);
    assert!(r.ring_indicator());
    assert!(r.transmit_fifo_empty());
    assert!(r.receive_fifo_empty());
    assert!(!r.receive_fifo_full() && !r.transmit_fifo_full() && !r.uart_busy());
    assert!(!r.data_carrier_detect() && !r.data_set_ready() && !r.clear_to_send());
    let r = FlagRegister::default()
        .with_uart_busy(true)
        .with_clear_to_send(true)
        .with_data_set_ready(true)
        .with_data_carrier_detect(true)
        .with_transmit_fifo_full(true)
        .with_receive_fifo_full(true);
    assert_eq!(r.to_bits(), 0b0_0110_1111);
    let r = r.with_ring_indicator(true).with_transmit_fifo_empty(true).with_receive_fifo_empty(true);
    assert_eq!(r.to_bits(), 0x1FF);
}

#[test]
fn receive_status_flags_round_trip() {
    let r = ReceiveStatusRegister::default()
        .with_overrun_error(true)
        .with_framing_error(true);
    assert_eq!(r.to_bits(), 0b1001);
    assert!(r.overrun_error() && r.framing_error());
    assert!(!r.break_error() && !r.parity_error());
    let r = r.with_break_error(true).with_parity_error(true).with_overrun_error(false);
    assert_eq!(r.to_bits(), 0b0111);
}

#[test]
fn data_register_error_bits() {
    let r = DataRegister::from_bits(0xFFFF_FFFF).with_data(0);
    assert_eq!(r.to_bits(), 0xFFFF_FF00);
    let r = r
        .with_break_error(false)
        .with_parity_error(false)
        .with_framing_error(false);
    assert_eq!(r.to_bits(), 0xFFFF_F800);
    assert!(r.overrun_error());
}

#[test]
fn interrupt_mask_bits_are_independent() {
    let r = InterruptMaskSetClearRegister::default()
        .with_overrun_error_interrupt_mask(true)
        .with_break_error_interrupt_mask(true)
        .with_parity_error_interrupt_mask(true)
        .with_framing_error_interrupt_mask(true)
        .with_receive_timeout_interrupt_mask(true)
        .with_transmit_interrupt_mask(true)
        .with_receive_interrupt_mask(true)
        .with_nUARTDSR_modem_interrupt_mask(true)
        .with_nUARTDCD_modem_interrupt_mask(true)
        .with_nUARTCTS_modem_interrupt_mask(true)
        .with_nUARTRI_modem_interrupt_mask(true);
    assert_eq!(r.to_bits(), 0x7FF);
    let r = r.with_transmit_interrupt_mask(false);
    assert_eq!(r.to_bits(), 0x7DF);
    assert!(!r.transmit_interrupt_mask());
    assert!(r.overrun_error_interrupt_mask() && r.break_error_interrupt_mask());
    assert!(r.parity_error_interrupt_mask() && r.framing_error_interrupt_mask());
    assert!(r.receive_timeout_interrupt_mask() && r.receive_interrupt_mask());
    assert!(r.nUARTDSR_modem_interrupt_mask() && r.nUARTDCD_modem_interrupt_mask());
    assert!(r.nUARTCTS_modem_interrupt_mask() && r.nUARTRI_modem_interrupt_mask());
}
