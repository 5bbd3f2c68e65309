//! The PL011 register values: one type per register, wrapping the raw
//! integer that the hardware stores, with an accessor and a `with_` builder
//! per field.
use vstd::prelude::*;

use crate::codec::{
    bit_from_bool, bit_of_bool, bits_of, extract, extract_flag, insert, insert_u16, insert_u8,
    lemma_low_mask_values, well_formed_layout, with_bits,
};
use crate::ints::{NonZeroU16, NonZeroU8, U2, U3, U6};

verus! {

/// the number of data bits transmitted or received in a frame
#[derive(Clone, Copy, Debug, PartialEq, Eq, Structural)]
pub enum WordLength {
    FiveBits,
    SixBits,
    SevenBits,
    EightBits,
}

impl WordLength {
    /// The two-bit pattern that selects this word length.
    pub open spec fn pattern(self) -> u8 {
        match self {
            WordLength::FiveBits => 0,
            WordLength::SixBits => 1,
            WordLength::SevenBits => 2,
            WordLength::EightBits => 3,
        }
    }

    /// Distinct word lengths have distinct patterns, so decoding the pattern
    /// of a word length gives it back.
    pub proof fn lemma_pattern_injective(self, other: WordLength)
        requires
            self.pattern() == other.pattern(),
        ensures
            self == other,
    {
    }

    /// Decodes a two-bit pattern; every pattern names a word length.
    pub fn from_bits(bits: U2) -> (r: WordLength)
        ensures
            r.pattern() == bits@,
    {
        match bits.value() {
            0 => WordLength::FiveBits,
            1 => WordLength::SixBits,
            2 => WordLength::SevenBits,
            _ => WordLength::EightBits,
        }
    }

    /// Encodes this word length as its two-bit pattern.
    pub fn to_bits(self) -> (r: U2)
        ensures
            r@ == self.pattern(),
    {
        U2::trimmed_new(
            match self {
                WordLength::FiveBits => 0,
                WordLength::SixBits => 1,
                WordLength::SevenBits => 2,
                WordLength::EightBits => 3,
            },
        )
    }
}

impl Default for WordLength {
    fn default() -> (r: WordLength)
        ensures
            r == WordLength::FiveBits,
    {
        WordLength::FiveBits
    }
}

/// Receive and transmit interrupt FIFO level select trigger points.
#[derive(Clone, Copy, Debug, PartialEq, Eq, Structural)]
pub enum FIFOLevelSelect {
    /// Receive FIFO becomes ≥ 1/8 full
    /// or
    /// Transmit FIFO becomes ≤ 1/8 full
    OneEighth,
    /// Receive FIFO becomes ≥ 1/4 full
    /// or
    /// Transmit FIFO becomes ≤ 1/4 full
    OneFourth,
    /// Receive FIFO becomes ≥ 1/2 full
    /// or
    /// Transmit FIFO becomes ≤ 1/2 full
    OneHalf,
    /// Receive FIFO becomes ≥ 3/4 full
    /// or
    /// Transmit FIFO becomes ≤ 3/4 full
    ThreeFourth,
    /// Receive FIFO becomes ≥ 7/8 full
    /// or
    /// Transmit FIFO becomes ≤ 7/8 full
    SevenEighth,
}

impl FIFOLevelSelect {
    /// The three-bit pattern that selects this level; patterns 5 to 7 are
    /// reserved.
    pub open spec fn pattern(self) -> u8 {
        match self {
            FIFOLevelSelect::OneEighth => 0,
            FIFOLevelSelect::OneFourth => 1,
            FIFOLevelSelect::OneHalf => 2,
            FIFOLevelSelect::ThreeFourth => 3,
            FIFOLevelSelect::SevenEighth => 4,
        }
    }

    /// Distinct levels have distinct patterns, so decoding the pattern of a
    /// level gives it back.
    pub proof fn lemma_pattern_injective(self, other: FIFOLevelSelect)
        requires
            self.pattern() == other.pattern(),
        ensures
            self == other,
    {
    }

    /// Decodes a three-bit pattern; a reserved pattern is handed back unchanged.
    pub fn try_from_bits(bits: U3) -> (r: Result<FIFOLevelSelect, U3>)
        ensures
            r is Ok <==> bits@ < 5,
            r matches Ok(level) ==> level.pattern() == bits@,
            r matches Err(e) ==> e == bits,
    {
        match bits.value() {
            0 => Ok(FIFOLevelSelect::OneEighth),
            1 => Ok(FIFOLevelSelect::OneFourth),
            2 => Ok(FIFOLevelSelect::OneHalf),
            3 => Ok(FIFOLevelSelect::ThreeFourth),
            4 => Ok(FIFOLevelSelect::SevenEighth),
            _ => Err(bits),
        }
    }

    /// Encodes this level as its three-bit pattern.
    pub fn to_bits(self) -> (r: U3)
        ensures
            r@ == self.pattern(),
    {
        U3::trimmed_new(
            match self {
                FIFOLevelSelect::OneEighth => 0,
                FIFOLevelSelect::OneFourth => 1,
                FIFOLevelSelect::OneHalf => 2,
                FIFOLevelSelect::ThreeFourth => 3,
                FIFOLevelSelect::SevenEighth => 4,
            },
        )
    }
}

impl Default for FIFOLevelSelect {
    fn default() -> (r: FIFOLevelSelect)
        ensures
            r == FIFOLevelSelect::OneHalf,
    {
        FIFOLevelSelect::OneHalf
    }
}

/// The UARTDR Register; the data register.
///
/// For words to be transmitted:
///  - if the FIFOs are enabled, data written to this location is pushed onto the transmit FIFO
///  - if the FIFOs are not enabled, data is stored in the transmitter holding register (the bottom word of the transmit FIFO).
/// The write operation initiates transmission from the UART. The data is prefixed with a start bit, appended with the appropriate parity bit (if parity is enabled), and a stop bit. The resultant word is then transmitted.
///
/// For received words:
///  - if the FIFOs are enabled, the data byte and the 4-bit status (break, frame, parity, and overrun) is pushed onto the 12-bit wide receive FIFO
///  - if the FIFOs are not enabled, the data byte and status are stored in the receiving holding register (the bottom word of the receive FIFO).
///
/// The received data byte is read by performing reads from the UARTDR Register along with the corresponding status information. The status information can also be read by a read of the UARTRSR/UARTECR Register.
#[derive(Clone, Copy, Debug, PartialEq, Eq, Structural)]
pub struct DataRegister(u32);

impl View for DataRegister {
    type V = u32;

    closed spec fn view(&self) -> u32 {
        self.0
    }
}

impl Default for DataRegister {
    /// The all-zero value, which is the reset value of this register.
    fn default() -> (r: DataRegister)
        ensures
            r@ == 0,
    {
        DataRegister(0)
    }
}

impl DataRegister {
    /// The register value held in the raw storage `raw`.
    pub fn from_bits(raw: u32) -> (r: DataRegister)
        ensures
            r@ == raw,
    {
        DataRegister(raw)
    }

    /// The raw storage of this register value.
    pub fn to_bits(self) -> (r: u32)
        ensures
            r == self@,
    {
        self.0
    }

    /// The `(offset, width)` of each field, in the order of the accessors.
    pub open spec fn layout() -> Seq<(u32, u32)> {
        seq![(11, 1), (10, 1), (9, 1), (8, 1), (0, 8)]
    }

    /// The fields lie within the 32 bits of the register and do not overlap.
    pub proof fn lemma_layout()
        ensures
            well_formed_layout(Self::layout(), 32),
    {
    }

    /// This bit is set to 1 if data is received and the receive FIFO is already full.
    /// This is cleared to 0 once there is an empty space in the FIFO and a new character can be written to it.
    pub fn overrun_error(&self) -> (r: bool)
        ensures
            r == (bits_of(self@, 11, 1) == 1),
    {
        extract_flag(self.0, 11)
    }

    /// This value with `overrun_error` set to `value`; every other bit is kept.
    pub fn with_overrun_error(self, value: bool) -> (r: DataRegister)
        ensures
            r@ == with_bits(self@, 11, 1, bit_of_bool(value)),
    {
        DataRegister(insert(self.0, 11, 1, bit_from_bool(value)))
    }

    /// This bit is set to 1 if a break condition was detected, indicating that the received data input was held LOW for longer than a full-word transmission time (defined as start, data, parity and stop bits).
    ///
    /// In FIFO mode, this error is associated with the character at the top of the FIFO. When a break occurs, only one 0 character is loaded into the FIFO.
    /// The next character is only enabled after the receive data input goes to a 1 (marking state), and the next valid start bit is received.
    pub fn break_error(&self) -> (r: bool)
        ensures
            r == (bits_of(self@, 10, 1) == 1),
    {
        extract_flag(self.0, 10)
    }

    /// This value with `break_error` set to `value`; every other bit is kept.
    pub fn with_break_error(self, value: bool) -> (r: DataRegister)
        ensures
            r@ == with_bits(self@, 10, 1, bit_of_bool(value)),
    {
        DataRegister(insert(self.0, 10, 1, bit_from_bool(value)))
    }

    ///  When set to 1, it indicates that the parity of the received data character does not match the parity that the EPS and SPS bits in the Line Control Register, UARTLCR_H select.
    /// In FIFO mode, this error is associated with the character at the top of the FIFO.
    pub fn parity_error(&self) -> (r: bool)
        ensures
            r == (bits_of(self@, 9, 1) == 1),
    {
        extract_flag(self.0, 9)
    }

    /// This value with `parity_error` set to `value`; every other bit is kept.
    pub fn with_parity_error(self, value: bool) -> (r: DataRegister)
        ensures
            r@ == with_bits(self@, 9, 1, bit_of_bool(value)),
    {
        DataRegister(insert(self.0, 9, 1, bit_from_bool(value)))
    }

    /// When set to 1, it indicates that the received character did not have a valid stop bit (a valid stop bit is 1).
    /// In FIFO mode, this error is associated with the character at the top of the FIFO.
    pub fn framing_error(&self) -> (r: bool)
        ensures
            r == (bits_of(self@, 8, 1) == 1),
    {
        extract_flag(self.0, 8)
    }

    /// This value with `framing_error` set to `value`; every other bit is kept.
    pub fn with_framing_error(self, value: bool) -> (r: DataRegister)
        ensures
            r@ == with_bits(self@, 8, 1, bit_of_bool(value)),
    {
        DataRegister(insert(self.0, 8, 1, bit_from_bool(value)))
    }

    /// Receive (read) data character.
    /// Transmit (write) data character.
    pub fn data(&self) -> (r: u8)
        ensures
            r as u32 == bits_of(self@, 0, 8),
    {
        proof {
            lemma_low_mask_values();
        }
        extract(self.0, 0, 8) as u8
    }

    /// This value with `data` set to `value`; every other bit is kept.
    pub fn with_data(self, value: u8) -> (r: DataRegister)
        ensures
            r@ == with_bits(self@, 0, 8, value as u32),
    {
        DataRegister(insert(self.0, 0, 8, value as u32))
    }
}

/// The UARTRSR/UARTECR Register; the receive status register/error clear register.
///
/// Receive status can also be read from the UARTRSR Register. If the status is read from this register, then the status information for break, framing and parity corresponds to the data character read from the Data Register, UARTDR prior to reading the UARTRSR Register. The status information for overrun is set immediately when an overrun condition occurs.
///
/// A write to this register clears the framing, parity, break, and overrun errors. The data value is not important. All the bits are cleared to 0 on reset.
#[derive(Clone, Copy, Debug, PartialEq, Eq, Structural)]
pub struct ReceiveStatusRegister(u32);

impl View for ReceiveStatusRegister {
    type V = u32;

    closed spec fn view(&self) -> u32 {
        self.0
    }
}

impl Default for ReceiveStatusRegister {
    /// The all-zero value, which is the reset value of this register.
    fn default() -> (r: ReceiveStatusRegister)
        ensures
            r@ == 0,
    {
        ReceiveStatusRegister(0)
    }
}

impl ReceiveStatusRegister {
    /// The register value held in the raw storage `raw`.
    pub fn from_bits(raw: u32) -> (r: ReceiveStatusRegister)
        ensures
            r@ == raw,
    {
        ReceiveStatusRegister(raw)
    }

    /// The raw storage of this register value.
    pub fn to_bits(self) -> (r: u32)
        ensures
            r == self@,
    {
        self.0
    }

    /// The `(offset, width)` of each field, in the order of the accessors.
    pub open spec fn layout() -> Seq<(u32, u32)> {
        seq![(3, 1), (2, 1), (1, 1), (0, 1)]
    }

    /// The fields lie within the 32 bits of the register and do not overlap.
    pub proof fn lemma_layout()
        ensures
            well_formed_layout(Self::layout(), 32),
    {
    }

    /// This bit is set to 1 if data is received and the FIFO is already full.
    ///
    /// This bit is cleared to 0 by a write to this register.
    ///
    /// The FIFO contents remain valid because no more data is written when the FIFO is full, only the contents of the shift register are overwritten. The CPU must now read the data, to empty the FIFO.
    pub fn overrun_error(&self) -> (r: bool)
        ensures
            r == (bits_of(self@, 3, 1) == 1),
    {
        extract_flag(self.0, 3)
    }

    /// This value with `overrun_error` set to `value`; every other bit is kept.
    pub fn with_overrun_error(self, value: bool) -> (r: ReceiveStatusRegister)
        ensures
            r@ == with_bits(self@, 3, 1, bit_of_bool(value)),
    {
        ReceiveStatusRegister(insert(self.0, 3, 1, bit_from_bool(value)))
    }

    /// This bit is set to 1 if a break condition was detected, indicating that the received data input was held LOW for longer than a full-word transmission time (defined as start, data, parity, and stop bits).
    ///
    /// This bit is cleared to 0 after a write to this register.
    ///
    /// In FIFO mode, this error is associated with the character at the top of the FIFO. When a break occurs, only one 0 character is loaded into the FIFO. The next character is only enabled after the receive data input goes to a 1 (marking state) and the next valid start bit is received.
    pub fn break_error(&self) -> (r: bool)
        ensures
            r == (bits_of(self@, 2, 1) == 1),
    {
        extract_flag(self.0, 2)
    }

    /// This value with `break_error` set to `value`; every other bit is kept.
    pub fn with_break_error(self, value: bool) -> (r: ReceiveStatusRegister)
        ensures
            r@ == with_bits(self@, 2, 1, bit_of_bool(value)),
    {
        ReceiveStatusRegister(insert(self.0, 2, 1, bit_from_bool(value)))
    }

    /// When set to 1, it indicates that the parity of the received data character does not match the parity that the EPS and SPS bits in the Line Control Register, UARTLCR_H select.
    ///
    /// This bit is cleared to 0 by a write to this register.
    ///
    /// In FIFO mode, this error is associated with the character at the top of the FIFO.
    pub fn parity_error(&self) -> (r: bool)
        ensures
            r == (bits_of(self@, 1, 1) == 1),
    {
        extract_flag(self.0, 1)
    }

    /// This value with `parity_error` set to `value`; every other bit is kept.
    pub fn with_parity_error(self, value: bool) -> (r: ReceiveStatusRegister)
        ensures
            r@ == with_bits(self@, 1, 1, bit_of_bool(value)),
    {
        ReceiveStatusRegister(insert(self.0, 1, 1, bit_from_bool(value)))
    }

    /// When set to 1, it indicates that the received character did not have a valid stop bit (a valid stop bit is 1).
    ///
    /// This bit is cleared to 0 by a write to this register.
    ///
    /// In FIFO mode, this error is associated with the character at the top of the FIFO.
    pub fn framing_error(&self) -> (r: bool)
        ensures
            r == (bits_of(self@, 0, 1) == 1),
    {
        extract_flag(self.0, 0)
    }

    /// This value with `framing_error` set to `value`; every other bit is kept.
    pub fn with_framing_error(self, value: bool) -> (r: ReceiveStatusRegister)
        ensures
            r@ == with_bits(self@, 0, 1, bit_of_bool(value)),
    {
        ReceiveStatusRegister(insert(self.0, 0, 1, bit_from_bool(value)))
    }
}

/// The UARTFR Register; the flag register.
///
/// After reset TXFF, RXFF, and BUSY are 0, and TXFE and RXFE are 1.
#[derive(Clone, Copy, Debug, PartialEq, Eq, Structural)]
pub struct FlagRegister(u32);

impl View for FlagRegister {
    type V = u32;

    closed spec fn view(&self) -> u32 {
        self.0
    }
}

impl Default for FlagRegister {
    /// The all-zero value. Note that the hardware resets `transmit_fifo_empty` and
    /// `receive_fifo_empty` to 1.
    fn default() -> (r: FlagRegister)
        ensures
            r@ == 0,
    {
        FlagRegister(0)
    }
}

impl FlagRegister {
    /// The register value held in the raw storage `raw`.
    pub fn from_bits(raw: u32) -> (r: FlagRegister)
        ensures
            r@ == raw,
    {
        FlagRegister(raw)
    }

    /// The raw storage of this register value.
    pub fn to_bits(self) -> (r: u32)
        ensures
            r == self@,
    {
        self.0
    }

    /// The `(offset, width)` of each field, in the order of the accessors.
    pub open spec fn layout() -> Seq<(u32, u32)> {
        seq![(8, 1), (7, 1), (6, 1), (5, 1), (4, 1), (3, 1), (2, 1), (1, 1), (0, 1)]
    }

    /// The fields lie within the 32 bits of the register and do not overlap.
    pub proof fn lemma_layout()
        ensures
            well_formed_layout(Self::layout(), 32),
    {
    }

    /// This bit is the complement of the UART ring indicator, nUARTRI, modem status input. That is, the bit is 1 when nUARTRI is LOW.
    pub fn ring_indicator(&self) -> (r: bool)
        ensures
            r == (bits_of(self@, 8, 1) == 1),
    {
        extract_flag(self.0, 8)
    }

    /// This value with `ring_indicator` set to `value`; every other bit is kept.
    pub fn with_ring_indicator(self, value: bool) -> (r: FlagRegister)
        ensures
            r@ == with_bits(self@, 8, 1, bit_of_bool(value)),
    {
        FlagRegister(insert(self.0, 8, 1, bit_from_bool(value)))
    }

    /// The meaning of this bit depends on the state of the FEN bit in the Line Control Register, UARTLCR_H.
    ///
    /// If the FIFO is disabled, this bit is set when the transmit holding register is empty.
    ///
    /// If the FIFO is enabled, the TXFE bit is set when the transmit FIFO is empty.
    ///
    /// This bit does not indicate if there is data in the transmit shift register.
    pub fn transmit_fifo_empty(&self) -> (r: bool)
        ensures
            r == (bits_of(self@, 7, 1) == 1),
    {
        extract_flag(self.0, 7)
    }

    /// This value with `transmit_fifo_empty` set to `value`; every other bit is kept.
    pub fn with_transmit_fifo_empty(self, value: bool) -> (r: FlagRegister)
        ensures
            r@ == with_bits(self@, 7, 1, bit_of_bool(value)),
    {
        FlagRegister(insert(self.0, 7, 1, bit_from_bool(value)))
    }

    /// The meaning of this bit depends on the state of the FEN bit in the UARTLCR_H Register.
    ///
    /// If the FIFO is disabled, this bit is set when the receive holding register is full.
    ///
    /// If the FIFO is enabled, the RXFF bit is set when the receive FIFO is full.
    pub fn receive_fifo_full(&self) -> (r: bool)
        ensures
            r == (bits_of(self@, 6, 1) == 1),
    {
        extract_flag(self.0, 6)
    }

    /// This value with `receive_fifo_full` set to `value`; every other bit is kept.
    pub fn with_receive_fifo_full(self, value: bool) -> (r: FlagRegister)
        ensures
            r@ == with_bits(self@, 6, 1, bit_of_bool(value)),
    {
        FlagRegister(insert(self.0, 6, 1, bit_from_bool(value)))
    }

    /// The meaning of this bit depends on the state of the FEN bit in the UARTLCR_H Register.
    ///
    /// If the FIFO is disabled, this bit is set when the transmit holding register is full.
    ///
    /// If the FIFO is enabled, the TXFF bit is set when the transmit FIFO is full.
    pub fn transmit_fifo_full(&self) -> (r: bool)
        ensures
            r == (bits_of(self@, 5, 1) == 1),
    {
        extract_flag(self.0, 5)
    }

    /// This value with `transmit_fifo_full` set to `value`; every other bit is kept.
    pub fn with_transmit_fifo_full(self, value: bool) -> (r: FlagRegister)
        ensures
            r@ == with_bits(self@, 5, 1, bit_of_bool(value)),
    {
        FlagRegister(insert(self.0, 5, 1, bit_from_bool(value)))
    }

    /// Receive FIFO empty. The meaning of this bit depends on the state of the FEN bit in the UARTLCR_H Register.
    ///
    /// If the FIFO is disabled, this bit is set when the receive holding register is empty.
    ///
    /// If the FIFO is enabled, the RXFE bit is set when the receive FIFO is empty.
    pub fn receive_fifo_empty(&self) -> (r: bool)
        ensures
            r == (bits_of(self@, 4, 1) == 1),
    {
        extract_flag(self.0, 4)
    }

    /// This value with `receive_fifo_empty` set to `value`; every other bit is kept.
    pub fn with_receive_fifo_empty(self, value: bool) -> (r: FlagRegister)
        ensures
            r@ == with_bits(self@, 4, 1, bit_of_bool(value)),
    {
        FlagRegister(insert(self.0, 4, 1, bit_from_bool(value)))
    }

    /// If this bit is set to 1, the UART is busy transmitting data. This bit remains set until the complete byte, including all the stop bits, has been sent from the shift register.
    ///
    /// This bit is set as soon as the transmit FIFO becomes non-empty, regardless of whether the UART is enabled or not.
    pub fn uart_busy(&self) -> (r: bool)
        ensures
            r == (bits_of(self@, 3, 1) == 1),
    {
        extract_flag(self.0, 3)
    }

    /// This value with `uart_busy` set to `value`; every other bit is kept.
    pub fn with_uart_busy(self, value: bool) -> (r: FlagRegister)
        ensures
            r@ == with_bits(self@, 3, 1, bit_of_bool(value)),
    {
        FlagRegister(insert(self.0, 3, 1, bit_from_bool(value)))
    }

    /// This bit is the complement of the UART data carrier detect, nUARTDCD, modem status input. That is, the bit is 1 when nUARTDCD is LOW.
    pub fn data_carrier_detect(&self) -> (r: bool)
        ensures
            r == (bits_of(self@, 2, 1) == 1),
    {
        extract_flag(self.0, 2)
    }

    /// This value with `data_carrier_detect` set to `value`; every other bit is kept.
    pub fn with_data_carrier_detect(self, value: bool) -> (r: FlagRegister)
        ensures
            r@ == with_bits(self@, 2, 1, bit_of_bool(value)),
    {
        FlagRegister(insert(self.0, 2, 1, bit_from_bool(value)))
    }

    /// This bit is the complement of the UART data set ready, nUARTDSR, modem status input. That is, the bit is 1 when nUARTDSR is LOW.
    pub fn data_set_ready(&self) -> (r: bool)
        ensures
            r == (bits_of(self@, 1, 1) == 1),
    {
        extract_flag(self.0, 1)
    }

    /// This value with `data_set_ready` set to `value`; every other bit is kept.
    pub fn with_data_set_ready(self, value: bool) -> (r: FlagRegister)
        ensures
            r@ == with_bits(self@, 1, 1, bit_of_bool(value)),
    {
        FlagRegister(insert(self.0, 1, 1, bit_from_bool(value)))
    }

    /// Clear to send. This bit is the complement of the UART clear to send, nUARTCTS, modem status input. That is, the bit is 1 when nUARTCTS is LOW.
    pub fn clear_to_send(&self) -> (r: bool)
        ensures
            r == (bits_of(self@, 0, 1) == 1),
    {
        extract_flag(self.0, 0)
    }

    /// This value with `clear_to_send` set to `value`; every other bit is kept.
    pub fn with_clear_to_send(self, value: bool) -> (r: FlagRegister)
        ensures
            r@ == with_bits(self@, 0, 1, bit_of_bool(value)),
    {
        FlagRegister(insert(self.0, 0, 1, bit_from_bool(value)))
    }
}

/// The UARTILPR Register; the IrDA low-power counter register.
///
/// This is an 8-bit read/write register that stores the low-power counter divisor value used to generate the IrLPBaud16 signal by dividing down of UARTCLK.
/// The IrLPBaud16 signal is generated by dividing down the UARTCLK signal according to the low-power divisor value written to the UARTILPR Register.
///
/// The low-power divisor value is calculated as follows:
///
/// low-power divisor (ILPDVSR) = (FUARTCLK / FIrLPBaud16)
///
/// where FIrLPBaud16 is nominally 1.8432MHz.
///
/// You must select the divisor so that 1.42MHz < FIrLPBaud16 < 2.12MHz, results in a low-power pulse duration of 1.41 - 2.11µs (three times the period of IrLPBaud16).
///
/// Note: In low-power IrDA mode the UART rejects random noise on the received serial data input by ignoring SIRIN pulses that are less than 3 periods of IrLPBaud16.
#[derive(Clone, Copy, Debug, PartialEq, Eq, Structural)]
pub struct IrDALowPowerRegister(u8);

impl View for IrDALowPowerRegister {
    type V = u8;

    closed spec fn view(&self) -> u8 {
        self.0
    }
}

impl Default for IrDALowPowerRegister {
    /// The all-zero value the hardware resets to; its divisor field reads as
    /// the reserved pattern zero until a divisor is written.
    fn default() -> (r: IrDALowPowerRegister)
        ensures
            r@ == 0,
    {
        IrDALowPowerRegister(0)
    }
}

impl IrDALowPowerRegister {
    /// The register value held in the raw storage `raw`.
    pub fn from_bits(raw: u8) -> (r: IrDALowPowerRegister)
        ensures
            r@ == raw,
    {
        IrDALowPowerRegister(raw)
    }

    /// The raw storage of this register value.
    pub fn to_bits(self) -> (r: u8)
        ensures
            r == self@,
    {
        self.0
    }

    /// The `(offset, width)` of each field, in the order of the accessors.
    pub open spec fn layout() -> Seq<(u32, u32)> {
        seq![(0, 8)]
    }

    /// The fields lie within the 8 bits of the register and do not overlap.
    pub proof fn lemma_layout()
        ensures
            well_formed_layout(Self::layout(), 8),
    {
    }

    /// These bits are cleared to 0 at reset.
    pub fn low_power_divisor_value(&self) -> (r: Result<NonZeroU8, u8>)
        ensures
            r is Ok <==> bits_of(self@ as u32, 0, 8) != 0,
            r matches Ok(x) ==> x@ as u32 == bits_of(self@ as u32, 0, 8),
            r matches Err(e) ==> e as u32 == bits_of(self@ as u32, 0, 8),
    {
        proof {
            lemma_low_mask_values();
        }
        NonZeroU8::try_from_bits(extract(self.0 as u32, 0, 8) as u8)
    }

    /// This value with `low_power_divisor_value` set to `value`; every other bit is kept.
    pub fn with_low_power_divisor_value(self, value: NonZeroU8) -> (r: IrDALowPowerRegister)
        ensures
            r@ as u32 == with_bits(self@ as u32, 0, 8, value@ as u32),
    {
        IrDALowPowerRegister(insert_u8(self.0, 0, 8, value.get() as u32))
    }
}

/// The UARTIBRD Register; the integer baud rate divisor register.
///
/// The baud rate divisor is calculated as follows:
///
///     Baud rate divisor BAUDDIV = (FUARTCLK / (16 x Baud rate))
///     where FUARTCLK is the UART reference clock frequency.
///
/// The BAUDDIV is comprised of the integer value (BAUD DIVINT) and the fractional value (BAUD DIVFRAC).
///
/// The contents of the UARTIBRD and UARTFBRD registers are not updated until transmission or reception of the current character is complete.
///
/// The minimum divide ratio possible is 1 and the maximum is 65535(216 - 1). That is, UARTIBRD = 0 is invalid and UARTFBRD is ignored when this is the case.
///
/// Similarly, when UARTIBRD = 65535 (that is 0xFFFF), then UARTFBRD must not be greater than zero. If this is exceeded it results in an aborted transmission or reception.
#[derive(Clone, Copy, Debug, PartialEq, Eq, Structural)]
pub struct IntegerBaudRateDivisorRegister(u16);

impl View for IntegerBaudRateDivisorRegister {
    type V = u16;

    closed spec fn view(&self) -> u16 {
        self.0
    }
}

impl Default for IntegerBaudRateDivisorRegister {
    /// The all-zero value the hardware resets to; its divisor field reads as
    /// the reserved pattern zero until a divisor is written.
    fn default() -> (r: IntegerBaudRateDivisorRegister)
        ensures
            r@ == 0,
    {
        IntegerBaudRateDivisorRegister(0)
    }
}

impl IntegerBaudRateDivisorRegister {
    /// The register value held in the raw storage `raw`.
    pub fn from_bits(raw: u16) -> (r: IntegerBaudRateDivisorRegister)
        ensures
            r@ == raw,
    {
        IntegerBaudRateDivisorRegister(raw)
    }

    /// The raw storage of this register value.
    pub fn to_bits(self) -> (r: u16)
        ensures
            r == self@,
    {
        self.0
    }

    /// The `(offset, width)` of each field, in the order of the accessors.
    pub open spec fn layout() -> Seq<(u32, u32)> {
        seq![(0, 16)]
    }

    /// The fields lie within the 16 bits of the register and do not overlap.
    pub proof fn lemma_layout()
        ensures
            well_formed_layout(Self::layout(), 16),
    {
    }

    /// These bits are cleared to 0 at reset.
    pub fn integer_baud_rate_divisor(&self) -> (r: Result<NonZeroU16, u16>)
        ensures
            r is Ok <==> bits_of(self@ as u32, 0, 16) != 0,
            r matches Ok(x) ==> x@ as u32 == bits_of(self@ as u32, 0, 16),
            r matches Err(e) ==> e as u32 == bits_of(self@ as u32, 0, 16),
    {
        proof {
            lemma_low_mask_values();
        }
        NonZeroU16::try_from_bits(extract(self.0 as u32, 0, 16) as u16)
    }

    /// This value with `integer_baud_rate_divisor` set to `value`; every other bit is kept.
    pub fn with_integer_baud_rate_divisor(self, value: NonZeroU16) -> (r: IntegerBaudRateDivisorRegister)
        ensures
            r@ as u32 == with_bits(self@ as u32, 0, 16, value@ as u32),
    {
        IntegerBaudRateDivisorRegister(insert_u16(self.0, 0, 16, value.get() as u32))
    }
}

/// The UARTFBRD Register; the fractional part of the baud rate divisor value.
///
/// The baud rate divisor is calculated as follows:
///
///     Baud rate divisor BAUDDIV = (FUARTCLK / (16 x Baud rate))
///     where FUARTCLK is the UART reference clock frequency.
///
/// The BAUDDIV is comprised of the integer value (BAUD DIVINT) and the fractional value (BAUD DIVFRAC).
///
/// The contents of the UARTIBRD and UARTFBRD registers are not updated until transmission or reception of the current character is complete.
///
/// The minimum divide ratio possible is 1 and the maximum is 65535(216 - 1). That is, UARTIBRD = 0 is invalid and UARTFBRD is ignored when this is the case.
///
/// Similarly, when UARTIBRD = 65535 (that is 0xFFFF), then UARTFBRD must not be greater than zero. If this is exceeded it results in an aborted transmission or reception.
#[derive(Clone, Copy, Debug, PartialEq, Eq, Structural)]
pub struct FractionalBaudRateDivisorRegister(u8);

impl View for FractionalBaudRateDivisorRegister {
    type V = u8;

    closed spec fn view(&self) -> u8 {
        self.0
    }
}

impl Default for FractionalBaudRateDivisorRegister {
    /// The all-zero value, which is the reset value of this register.
    fn default() -> (r: FractionalBaudRateDivisorRegister)
        ensures
            r@ == 0,
    {
        FractionalBaudRateDivisorRegister(0)
    }
}

impl FractionalBaudRateDivisorRegister {
    /// The register value held in the raw storage `raw`.
    pub fn from_bits(raw: u8) -> (r: FractionalBaudRateDivisorRegister)
        ensures
            r@ == raw,
    {
        FractionalBaudRateDivisorRegister(raw)
    }

    /// The raw storage of this register value.
    pub fn to_bits(self) -> (r: u8)
        ensures
            r == self@,
    {
        self.0
    }

    /// The `(offset, width)` of each field, in the order of the accessors.
    pub open spec fn layout() -> Seq<(u32, u32)> {
        seq![(0, 6)]
    }

    /// The fields lie within the 8 bits of the register and do not overlap.
    pub proof fn lemma_layout()
        ensures
            well_formed_layout(Self::layout(), 8),
    {
    }

    /// These bits are cleared to 0 at reset.
    pub fn fractional_baud_rate_divisor(&self) -> (r: U6)
        ensures
            r@ as u32 == bits_of(self@ as u32, 0, 6),
    {
        proof {
            lemma_low_mask_values();
        }
        U6::trimmed_new(extract(self.0 as u32, 0, 6) as u8)
    }

    /// This value with `fractional_baud_rate_divisor` set to `value`; every other bit is kept.
    pub fn with_fractional_baud_rate_divisor(self, value: U6) -> (r: FractionalBaudRateDivisorRegister)
        ensures
            r@ as u32 == with_bits(self@ as u32, 0, 6, value@ as u32),
    {
        FractionalBaudRateDivisorRegister(insert_u8(self.0, 0, 6, value.value() as u32))
    }
}

/// The UARTLCR_H Register; the line control register.
///
/// This register accesses bits 29 to 22 of the UART Line Control Register, UARTLCR.
/// All the bits are cleared to 0 when reset.
#[derive(Clone, Copy, Debug, PartialEq, Eq, Structural)]
pub struct LineControlRegister(u16);

impl View for LineControlRegister {
    type V = u16;

    closed spec fn view(&self) -> u16 {
        self.0
    }
}

impl Default for LineControlRegister {
    /// The all-zero value, which is the reset value of this register.
    fn default() -> (r: LineControlRegister)
        ensures
            r@ == 0,
    {
        LineControlRegister(0)
    }
}

impl LineControlRegister {
    /// The register value held in the raw storage `raw`.
    pub fn from_bits(raw: u16) -> (r: LineControlRegister)
        ensures
            r@ == raw,
    {
        LineControlRegister(raw)
    }

    /// The raw storage of this register value.
    pub fn to_bits(self) -> (r: u16)
        ensures
            r == self@,
    {
        self.0
    }

    /// The `(offset, width)` of each field, in the order of the accessors.
    pub open spec fn layout() -> Seq<(u32, u32)> {
        seq![(7, 1), (5, 2), (4, 1), (3, 1), (2, 1), (1, 1), (0, 1)]
    }

    /// The fields lie within the 16 bits of the register and do not overlap.
    pub proof fn lemma_layout()
        ensures
            well_formed_layout(Self::layout(), 16),
    {
    }

    /// `false` = stick parity is disabled
    ///
    /// `true` = either:
    ///  - if the EPS bit is false then the parity bit is transmitted and checked as a 1
    ///  - if the EPS bit is true then the parity bit is transmitted and checked as a 0.
    pub fn stick_parity(&self) -> (r: bool)
        ensures
            r == (bits_of(self@ as u32, 7, 1) == 1),
    {
        extract_flag(self.0 as u32, 7)
    }

    /// This value with `stick_parity` set to `value`; every other bit is kept.
    pub fn with_stick_parity(self, value: bool) -> (r: LineControlRegister)
        ensures
            r@ as u32 == with_bits(self@ as u32, 7, 1, bit_of_bool(value)),
    {
        LineControlRegister(insert_u16(self.0, 7, 1, bit_from_bool(value)))
    }

    ///Indicates the number of data bits transmitted or received in a frame
    pub fn word_length(&self) -> (r: WordLength)
        ensures
            r.pattern() as u32 == bits_of(self@ as u32, 5, 2),
    {
        proof {
            lemma_low_mask_values();
        }
        WordLength::from_bits(U2::trimmed_new(extract(self.0 as u32, 5, 2) as u8))
    }

    /// This value with `word_length` set to `value`; every other bit is kept.
    pub fn with_word_length(self, value: WordLength) -> (r: LineControlRegister)
        ensures
            r@ as u32 == with_bits(self@ as u32, 5, 2, value.pattern() as u32),
    {
        LineControlRegister(insert_u16(self.0, 5, 2, value.to_bits().value() as u32))
    }

    /// Enable FIFOs:
    ///  - `false` = FIFOs are disabled (character mode) that is, the FIFOs become 1-byte-deep holding registers
    ///  - `true` = transmit and receive FIFO buffers are enabled (FIFO mode).
    pub fn enable_fifos(&self) -> (r: bool)
        ensures
            r == (bits_of(self@ as u32, 4, 1) == 1),
    {
        extract_flag(self.0 as u32, 4)
    }

    /// This value with `enable_fifos` set to `value`; every other bit is kept.
    pub fn with_enable_fifos(self, value: bool) -> (r: LineControlRegister)
        ensures
            r@ as u32 == with_bits(self@ as u32, 4, 1, bit_of_bool(value)),
    {
        LineControlRegister(insert_u16(self.0, 4, 1, bit_from_bool(value)))
    }

    /// Two stop bits select. If this bit is set to 1, two stop bits are transmitted at the end of the frame.
    /// The receive logic does not check for two stop bits being received.
    pub fn two_stop_bits_select(&self) -> (r: bool)
        ensures
            r == (bits_of(self@ as u32, 3, 1) == 1),
    {
        extract_flag(self.0 as u32, 3)
    }

    /// This value with `two_stop_bits_select` set to `value`; every other bit is kept.
    pub fn with_two_stop_bits_select(self, value: bool) -> (r: LineControlRegister)
        ensures
            r@ as u32 == with_bits(self@ as u32, 3, 1, bit_of_bool(value)),
    {
        LineControlRegister(insert_u16(self.0, 3, 1, bit_from_bool(value)))
    }

    /// Controls the type of parity the UART uses during transmission and reception:
    ///  - `false` = odd parity. The UART generates or checks for an odd number of 1s in the data and parity bits.
    ///  - `true` = even parity. The UART generates or checks for an even number of 1s in the data and parity bits.
    /// This bit has no effect when the PEN bit disables parity checking and generation.
    pub fn even_parity_select(&self) -> (r: bool)
        ensures
            r == (bits_of(self@ as u32, 2, 1) == 1),
    {
        extract_flag(self.0 as u32, 2)
    }

    /// This value with `even_parity_select` set to `value`; every other bit is kept.
    pub fn with_even_parity_select(self, value: bool) -> (r: LineControlRegister)
        ensures
            r@ as u32 == with_bits(self@ as u32, 2, 1, bit_of_bool(value)),
    {
        LineControlRegister(insert_u16(self.0, 2, 1, bit_from_bool(value)))
    }

    /// Parity enable:
    /// - `false` = parity is disabled and no parity bit added to the data frame
    /// - `true` = parity checking and generation is enabled.
    pub fn parity_enable(&self) -> (r: bool)
        ensures
            r == (bits_of(self@ as u32, 1, 1) == 1),
    {
        extract_flag(self.0 as u32, 1)
    }

    /// This value with `parity_enable` set to `value`; every other bit is kept.
    pub fn with_parity_enable(self, value: bool) -> (r: LineControlRegister)
        ensures
            r@ as u32 == with_bits(self@ as u32, 1, 1, bit_of_bool(value)),
    {
        LineControlRegister(insert_u16(self.0, 1, 1, bit_from_bool(value)))
    }

    /// Send break. If this bit is set to `true`, a low-level is continually output on the UARTTXD output,
    /// after completing transmission of the current character.
    ///
    /// For the proper execution of the break command, the software must set this bit for at least two complete frames.
    ///
    /// For normal use, this bit must be cleared to 0.
    pub fn send_break(&self) -> (r: bool)
        ensures
            r == (bits_of(self@ as u32, 0, 1) == 1),
    {
        extract_flag(self.0 as u32, 0)
    }

    /// This value with `send_break` set to `value`; every other bit is kept.
    pub fn with_send_break(self, value: bool) -> (r: LineControlRegister)
        ensures
            r@ as u32 == with_bits(self@ as u32, 0, 1, bit_of_bool(value)),
    {
        LineControlRegister(insert_u16(self.0, 0, 1, bit_from_bool(value)))
    }
}

/// The UARTCR Register; the control register.
///
/// All the bits are cleared to 0 on reset except for bits 9 and 8 that are set to 1.
#[derive(Clone, Copy, Debug, PartialEq, Eq, Structural)]
pub struct ControlRegister(u16);

impl View for ControlRegister {
    type V = u16;

    closed spec fn view(&self) -> u16 {
        self.0
    }
}

impl Default for ControlRegister {
    /// The all-zero value. Note that the hardware resets `receive_enable` and
    /// `transmit_enable` to 1; use `from_bits(0x0300)` for the exact reset state.
    fn default() -> (r: ControlRegister)
        ensures
            r@ == 0,
    {
        ControlRegister(0)
    }
}

impl ControlRegister {
    /// The register value held in the raw storage `raw`.
    pub fn from_bits(raw: u16) -> (r: ControlRegister)
        ensures
            r@ == raw,
    {
        ControlRegister(raw)
    }

    /// The raw storage of this register value.
    pub fn to_bits(self) -> (r: u16)
        ensures
            r == self@,
    {
        self.0
    }

    /// The `(offset, width)` of each field, in the order of the accessors.
    pub open spec fn layout() -> Seq<(u32, u32)> {
        seq![(15, 1), (14, 1), (13, 1), (12, 1), (11, 1), (10, 1), (9, 1), (8, 1), (7, 1), (1, 1), (0, 1)]
    }

    /// The fields lie within the 16 bits of the register and do not overlap.
    pub proof fn lemma_layout()
        ensures
            well_formed_layout(Self::layout(), 16),
    {
    }

    /// If this bit is set to `true`, CTS hardware flow control is enabled. Data is only transmitted when the nUARTCTS signal is asserted.
    pub fn CTS_hardware_flow_control_enable(&self) -> (r: bool)
        ensures
            r == (bits_of(self@ as u32, 15, 1) == 1),
    {
        extract_flag(self.0 as u32, 15)
    }

    /// This value with `CTS_hardware_flow_control_enable` set to `value`; every other bit is kept.
    pub fn with_CTS_hardware_flow_control_enable(self, value: bool) -> (r: ControlRegister)
        ensures
            r@ as u32 == with_bits(self@ as u32, 15, 1, bit_of_bool(value)),
    {
        ControlRegister(insert_u16(self.0, 15, 1, bit_from_bool(value)))
    }

    /// If this bit is set to `true`, RTS hardware flow control is enabled. Data is only requested when there is space in the receive FIFO for it to be received.
    pub fn RTS_hardware_flow_control_enable(&self) -> (r: bool)
        ensures
            r == (bits_of(self@ as u32, 14, 1) == 1),
    {
        extract_flag(self.0 as u32, 14)
    }

    /// This value with `RTS_hardware_flow_control_enable` set to `value`; every other bit is kept.
    pub fn with_RTS_hardware_flow_control_enable(self, value: bool) -> (r: ControlRegister)
        ensures
            r@ as u32 == with_bits(self@ as u32, 14, 1, bit_of_bool(value)),
    {
        ControlRegister(insert_u16(self.0, 14, 1, bit_from_bool(value)))
    }

    /// This bit is the complement of the UART Out2 (nUARTOut2) modem status output. That is, when the bit is programmed to `true`, the output is 0.
    /// For DTE this can be used as Ring Indicator (RI).
    pub fn out2(&self) -> (r: bool)
        ensures
            r == (bits_of(self@ as u32, 13, 1) == 1),
    {
        extract_flag(self.0 as u32, 13)
    }

    /// This value with `out2` set to `value`; every other bit is kept.
    pub fn with_out2(self, value: bool) -> (r: ControlRegister)
        ensures
            r@ as u32 == with_bits(self@ as u32, 13, 1, bit_of_bool(value)),
    {
        ControlRegister(insert_u16(self.0, 13, 1, bit_from_bool(value)))
    }

    /// This bit is the complement of the UART Out1 (nUARTOut1) modem status output. That is, when the bit is programmed to `true`, the output is 0.
    /// For DTE this can be used as Data Carrier Detect (DCD).
    pub fn out1(&self) -> (r: bool)
        ensures
            r == (bits_of(self@ as u32, 12, 1) == 1),
    {
        extract_flag(self.0 as u32, 12)
    }

    /// This value with `out1` set to `value`; every other bit is kept.
    pub fn with_out1(self, value: bool) -> (r: ControlRegister)
        ensures
            r@ as u32 == with_bits(self@ as u32, 12, 1, bit_of_bool(value)),
    {
        ControlRegister(insert_u16(self.0, 12, 1, bit_from_bool(value)))
    }

    /// This bit is the complement of the UART request to send, nUARTRTS, modem status output. That is, when the bit is programmed to a `true` then nUARTRTS is LOW.
    pub fn request_to_send(&self) -> (r: bool)
        ensures
            r == (bits_of(self@ as u32, 11, 1) == 1),
    {
        extract_flag(self.0 as u32, 11)
    }

    /// This value with `request_to_send` set to `value`; every other bit is kept.
    pub fn with_request_to_send(self, value: bool) -> (r: ControlRegister)
        ensures
            r@ as u32 == with_bits(self@ as u32, 11, 1, bit_of_bool(value)),
    {
        ControlRegister(insert_u16(self.0, 11, 1, bit_from_bool(value)))
    }

    /// Data transmit ready. This bit is the complement of the UART data transmit ready, nUARTDTR, modem status output. That is, when the bit is programmed to a `true` then nUARTDTR is LOW.
    pub fn data_transmit_ready(&self) -> (r: bool)
        ensures
            r == (bits_of(self@ as u32, 10, 1) == 1),
    {
        extract_flag(self.0 as u32, 10)
    }

    /// This value with `data_transmit_ready` set to `value`; every other bit is kept.
    pub fn with_data_transmit_ready(self, value: bool) -> (r: ControlRegister)
        ensures
            r@ as u32 == with_bits(self@ as u32, 10, 1, bit_of_bool(value)),
    {
        ControlRegister(insert_u16(self.0, 10, 1, bit_from_bool(value)))
    }

    ///  If this bit is set to `true`, the receive section of the UART is enabled. Data reception occurs for either UART signals or SIR signals depending on the setting of the SIREN bit. When the UART is disabled in the middle of reception, it completes the current character before stopping.
    pub fn receive_enable(&self) -> (r: bool)
        ensures
            r == (bits_of(self@ as u32, 9, 1) == 1),
    {
        extract_flag(self.0 as u32, 9)
    }

    /// This value with `receive_enable` set to `value`; every other bit is kept.
    pub fn with_receive_enable(self, value: bool) -> (r: ControlRegister)
        ensures
            r@ as u32 == with_bits(self@ as u32, 9, 1, bit_of_bool(value)),
    {
        ControlRegister(insert_u16(self.0, 9, 1, bit_from_bool(value)))
    }

    /// Transmit enable. If this bit is set to `true`, the transmit section of the UART is enabled. Data transmission occurs for either UART signals, or SIR signals depending on the setting of the SIREN bit. When the UART is disabled in the middle of transmission, it completes the current character before stopping.
    pub fn transmit_enable(&self) -> (r: bool)
        ensures
            r == (bits_of(self@ as u32, 8, 1) == 1),
    {
        extract_flag(self.0 as u32, 8)
    }

    /// This value with `transmit_enable` set to `value`; every other bit is kept.
    pub fn with_transmit_enable(self, value: bool) -> (r: ControlRegister)
        ensures
            r@ as u32 == with_bits(self@ as u32, 8, 1, bit_of_bool(value)),
    {
        ControlRegister(insert_u16(self.0, 8, 1, bit_from_bool(value)))
    }

    /// If this bit is set to 1 and the SIREN bit is set to 1 and the SIRTEST bit in the Test Control Register, UARTTCR is set to 1, then the nSIROUT path is inverted, and fed through to the SIRIN path. The SIRTEST bit in the test register must be set to 1 to override the normal half-duplex SIR operation. This must be the requirement for accessing the test registers during normal operation, and SIRTEST must be cleared to 0 when loopback testing is finished. This feature reduces the amount of external coupling required during system test.
    ///
    /// If this bit is set to 1, and the SIRTEST bit is set to 0, the UARTTXD path is fed through to the UARTRXD path.
    /// In either SIR mode or UART mode, when this bit is set, the modem outputs are also fed through to the modem inputs.
    /// This bit is cleared to 0 on reset, to disable loopback.
    pub fn loopback_enable(&self) -> (r: bool)
        ensures
            r == (bits_of(self@ as u32, 7, 1) == 1),
    {
        extract_flag(self.0 as u32, 7)
    }

    /// This value with `loopback_enable` set to `value`; every other bit is kept.
    pub fn with_loopback_enable(self, value: bool) -> (r: ControlRegister)
        ensures
            r@ as u32 == with_bits(self@ as u32, 7, 1, bit_of_bool(value)),
    {
        ControlRegister(insert_u16(self.0, 7, 1, bit_from_bool(value)))
    }

    /// SIR enable:
    /// - `false` = IrDA SIR ENDEC is disabled. nSIROUT remains LOW (no light pulse generated), and signal transitions on SIRIN have no effect.
    /// - `true` = IrDA SIR ENDEC is enabled. Data is transmitted and received on nSIROUT and SIRIN. UARTTXD remains HIGH, in the marking state. Signal transitions on UARTRXD or modem status inputs have no effect.
    ///
    /// This bit has no effect if the UARTEN bit disables the UART.
    pub fn SIR_enable(&self) -> (r: bool)
        ensures
            r == (bits_of(self@ as u32, 1, 1) == 1),
    {
        extract_flag(self.0 as u32, 1)
    }

    /// This value with `SIR_enable` set to `value`; every other bit is kept.
    pub fn with_SIR_enable(self, value: bool) -> (r: ControlRegister)
        ensures
            r@ as u32 == with_bits(self@ as u32, 1, 1, bit_of_bool(value)),
    {
        ControlRegister(insert_u16(self.0, 1, 1, bit_from_bool(value)))
    }

    /// UART enable:
    /// - `false` = UART is disabled. If the UART is disabled in the middle of transmission or reception, it completes the current character before stopping.
    /// - `true` = the UART is enabled. Data transmission and reception occurs for either UART signals or SIR signals depending on the setting of the SIREN bit.
    pub fn UART_enable(&self) -> (r: bool)
        ensures
            r == (bits_of(self@ as u32, 0, 1) == 1),
    {
        extract_flag(self.0 as u32, 0)
    }

    /// This value with `UART_enable` set to `value`; every other bit is kept.
    pub fn with_UART_enable(self, value: bool) -> (r: ControlRegister)
        ensures
            r@ as u32 == with_bits(self@ as u32, 0, 1, bit_of_bool(value)),
    {
        ControlRegister(insert_u16(self.0, 0, 1, bit_from_bool(value)))
    }
}

/// The UARTIFLS Register; the interrupt FIFO level select register.
///
/// You can use this register to define the FIFO level that triggers the assertion of UARTTXINTR and UARTRXINTR.
///
/// The interrupts are generated based on a transition through a level rather than being based on the level. That is, the interrupts are generated when the fill level progresses through the trigger level.
///
/// The bits are reset so that the trigger level is when the FIFOs are at the half-way mark.
#[derive(Clone, Copy, Debug, PartialEq, Eq, Structural)]
pub struct InterruptFIFOLevelSelectRegister(u16);

impl View for InterruptFIFOLevelSelectRegister {
    type V = u16;

    closed spec fn view(&self) -> u16 {
        self.0
    }
}

impl Default for InterruptFIFOLevelSelectRegister {
    /// The reset value: both trigger levels at one half.
    fn default() -> (r: InterruptFIFOLevelSelectRegister)
        ensures
            r@ == 0b010_010,
    {
        InterruptFIFOLevelSelectRegister(0b010_010)
    }
}

impl InterruptFIFOLevelSelectRegister {
    /// The register value held in the raw storage `raw`.
    pub fn from_bits(raw: u16) -> (r: InterruptFIFOLevelSelectRegister)
        ensures
            r@ == raw,
    {
        InterruptFIFOLevelSelectRegister(raw)
    }

    /// The raw storage of this register value.
    pub fn to_bits(self) -> (r: u16)
        ensures
            r == self@,
    {
        self.0
    }

    /// The `(offset, width)` of each field, in the order of the accessors.
    pub open spec fn layout() -> Seq<(u32, u32)> {
        seq![(3, 3), (0, 3)]
    }

    /// The fields lie within the 16 bits of the register and do not overlap.
    pub proof fn lemma_layout()
        ensures
            well_formed_layout(Self::layout(), 16),
    {
    }

    /// Receive FIFO interrupt level select.
    pub fn receive_interrupt_FIFO_level_select(&self) -> (r: Result<FIFOLevelSelect, U3>)
        ensures
            r is Ok <==> bits_of(self@ as u32, 3, 3) < 5,
            r matches Ok(level) ==> level.pattern() as u32 == bits_of(self@ as u32, 3, 3),
            r matches Err(e) ==> e@ as u32 == bits_of(self@ as u32, 3, 3),
    {
        proof {
            lemma_low_mask_values();
        }
        FIFOLevelSelect::try_from_bits(U3::trimmed_new(extract(self.0 as u32, 3, 3) as u8))
    }

    /// This value with `receive_interrupt_FIFO_level_select` set to `value`; every other bit is kept.
    pub fn with_receive_interrupt_FIFO_level_select(self, value: FIFOLevelSelect) -> (r: InterruptFIFOLevelSelectRegister)
        ensures
            r@ as u32 == with_bits(self@ as u32, 3, 3, value.pattern() as u32),
    {
        InterruptFIFOLevelSelectRegister(insert_u16(self.0, 3, 3, value.to_bits().value() as u32))
    }

    /// Transmit FIFO interrupt level select.
    pub fn transmit_interrupt_FIFO_level_select(&self) -> (r: Result<FIFOLevelSelect, U3>)
        ensures
            r is Ok <==> bits_of(self@ as u32, 0, 3) < 5,
            r matches Ok(level) ==> level.pattern() as u32 == bits_of(self@ as u32, 0, 3),
            r matches Err(e) ==> e@ as u32 == bits_of(self@ as u32, 0, 3),
    {
        proof {
            lemma_low_mask_values();
        }
        FIFOLevelSelect::try_from_bits(U3::trimmed_new(extract(self.0 as u32, 0, 3) as u8))
    }

    /// This value with `transmit_interrupt_FIFO_level_select` set to `value`; every other bit is kept.
    pub fn with_transmit_interrupt_FIFO_level_select(self, value: FIFOLevelSelect) -> (r: InterruptFIFOLevelSelectRegister)
        ensures
            r@ as u32 == with_bits(self@ as u32, 0, 3, value.pattern() as u32),
    {
        InterruptFIFOLevelSelectRegister(insert_u16(self.0, 0, 3, value.to_bits().value() as u32))
    }
}

/// The UARTIMSC Register; the interrupt mask set/clear register.
///
/// It is a read/write register.
///
/// On a read this register returns the current value of the mask on the relevant interrupt.
/// On a write of 1 to the particular bit, it sets the corresponding mask of that interrupt.
/// A write of 0 clears the corresponding mask.
///
/// All the bits are cleared to 0 when reset.
#[derive(Clone, Copy, Debug, PartialEq, Eq, Structural)]
pub struct InterruptMaskSetClearRegister(u16);

impl View for InterruptMaskSetClearRegister {
    type V = u16;

    closed spec fn view(&self) -> u16 {
        self.0
    }
}

impl Default for InterruptMaskSetClearRegister {
    /// The all-zero value, which is the reset value of this register.
    fn default() -> (r: InterruptMaskSetClearRegister)
        ensures
            r@ == 0,
    {
        InterruptMaskSetClearRegister(0)
    }
}

impl InterruptMaskSetClearRegister {
    /// The register value held in the raw storage `raw`.
    pub fn from_bits(raw: u16) -> (r: InterruptMaskSetClearRegister)
        ensures
            r@ == raw,
    {
        InterruptMaskSetClearRegister(raw)
    }

    /// The raw storage of this register value.
    pub fn to_bits(self) -> (r: u16)
        ensures
            r == self@,
    {
        self.0
    }

    /// The `(offset, width)` of each field, in the order of the accessors.
    pub open spec fn layout() -> Seq<(u32, u32)> {
        seq![(10, 1), (9, 1), (8, 1), (7, 1), (6, 1), (5, 1), (4, 1), (3, 1), (2, 1), (1, 1), (0, 1)]
    }

    /// The fields lie within the 16 bits of the register and do not overlap.
    pub proof fn lemma_layout()
        ensures
            well_formed_layout(Self::layout(), 16),
    {
    }

    pub fn overrun_error_interrupt_mask(&self) -> (r: bool)
        ensures
            r == (bits_of(self@ as u32, 10, 1) == 1),
    {
        extract_flag(self.0 as u32, 10)
    }

    /// This value with `overrun_error_interrupt_mask` set to `value`; every other bit is kept.
    pub fn with_overrun_error_interrupt_mask(self, value: bool) -> (r: InterruptMaskSetClearRegister)
        ensures
            r@ as u32 == with_bits(self@ as u32, 10, 1, bit_of_bool(value)),
    {
        InterruptMaskSetClearRegister(insert_u16(self.0, 10, 1, bit_from_bool(value)))
    }

    pub fn break_error_interrupt_mask(&self) -> (r: bool)
        ensures
            r == (bits_of(self@ as u32, 9, 1) == 1),
    {
        extract_flag(self.0 as u32, 9)
    }

    /// This value with `break_error_interrupt_mask` set to `value`; every other bit is kept.
    pub fn with_break_error_interrupt_mask(self, value: bool) -> (r: InterruptMaskSetClearRegister)
        ensures
            r@ as u32 == with_bits(self@ as u32, 9, 1, bit_of_bool(value)),
    {
        InterruptMaskSetClearRegister(insert_u16(self.0, 9, 1, bit_from_bool(value)))
    }

    pub fn parity_error_interrupt_mask(&self) -> (r: bool)
        ensures
            r == (bits_of(self@ as u32, 8, 1) == 1),
    {
        extract_flag(self.0 as u32, 8)
    }

    /// This value with `parity_error_interrupt_mask` set to `value`; every other bit is kept.
    pub fn with_parity_error_interrupt_mask(self, value: bool) -> (r: InterruptMaskSetClearRegister)
        ensures
            r@ as u32 == with_bits(self@ as u32, 8, 1, bit_of_bool(value)),
    {
        InterruptMaskSetClearRegister(insert_u16(self.0, 8, 1, bit_from_bool(value)))
    }

    pub fn framing_error_interrupt_mask(&self) -> (r: bool)
        ensures
            r == (bits_of(self@ as u32, 7, 1) == 1),
    {
        extract_flag(self.0 as u32, 7)
    }

    /// This value with `framing_error_interrupt_mask` set to `value`; every other bit is kept.
    pub fn with_framing_error_interrupt_mask(self, value: bool) -> (r: InterruptMaskSetClearRegister)
        ensures
            r@ as u32 == with_bits(self@ as u32, 7, 1, bit_of_bool(value)),
    {
        InterruptMaskSetClearRegister(insert_u16(self.0, 7, 1, bit_from_bool(value)))
    }

    pub fn receive_timeout_interrupt_mask(&self) -> (r: bool)
        ensures
            r == (bits_of(self@ as u32, 6, 1) == 1),
    {
        extract_flag(self.0 as u32, 6)
    }

    /// This value with `receive_timeout_interrupt_mask` set to `value`; every other bit is kept.
    pub fn with_receive_timeout_interrupt_mask(self, value: bool) -> (r: InterruptMaskSetClearRegister)
        ensures
            r@ as u32 == with_bits(self@ as u32, 6, 1, bit_of_bool(value)),
    {
        InterruptMaskSetClearRegister(insert_u16(self.0, 6, 1, bit_from_bool(value)))
    }

    pub fn transmit_interrupt_mask(&self) -> (r: bool)
        ensures
            r == (bits_of(self@ as u32, 5, 1) == 1),
    {
        extract_flag(self.0 as u32, 5)
    }

    /// This value with `transmit_interrupt_mask` set to `value`; every other bit is kept.
    pub fn with_transmit_interrupt_mask(self, value: bool) -> (r: InterruptMaskSetClearRegister)
        ensures
            r@ as u32 == with_bits(self@ as u32, 5, 1, bit_of_bool(value)),
    {
        InterruptMaskSetClearRegister(insert_u16(self.0, 5, 1, bit_from_bool(value)))
    }

    pub fn receive_interrupt_mask(&self) -> (r: bool)
        ensures
            r == (bits_of(self@ as u32, 4, 1) == 1),
    {
        extract_flag(self.0 as u32, 4)
    }

    /// This value with `receive_interrupt_mask` set to `value`; every other bit is kept.
    pub fn with_receive_interrupt_mask(self, value: bool) -> (r: InterruptMaskSetClearRegister)
        ensures
            r@ as u32 == with_bits(self@ as u32, 4, 1, bit_of_bool(value)),
    {
        InterruptMaskSetClearRegister(insert_u16(self.0, 4, 1, bit_from_bool(value)))
    }

    pub fn nUARTDSR_modem_interrupt_mask(&self) -> (r: bool)
        ensures
            r == (bits_of(self@ as u32, 3, 1) == 1),
    {
        extract_flag(self.0 as u32, 3)
    }

    /// This value with `nUARTDSR_modem_interrupt_mask` set to `value`; every other bit is kept.
    pub fn with_nUARTDSR_modem_interrupt_mask(self, value: bool) -> (r: InterruptMaskSetClearRegister)
        ensures
            r@ as u32 == with_bits(self@ as u32, 3, 1, bit_of_bool(value)),
    {
        InterruptMaskSetClearRegister(insert_u16(self.0, 3, 1, bit_from_bool(value)))
    }

    pub fn nUARTDCD_modem_interrupt_mask(&self) -> (r: bool)
        ensures
            r == (bits_of(self@ as u32, 2, 1) == 1),
    {
        extract_flag(self.0 as u32, 2)
    }

    /// This value with `nUARTDCD_modem_interrupt_mask` set to `value`; every other bit is kept.
    pub fn with_nUARTDCD_modem_interrupt_mask(self, value: bool) -> (r: InterruptMaskSetClearRegister)
        ensures
            r@ as u32 == with_bits(self@ as u32, 2, 1, bit_of_bool(value)),
    {
        InterruptMaskSetClearRegister(insert_u16(self.0, 2, 1, bit_from_bool(value)))
    }

    pub fn nUARTCTS_modem_interrupt_mask(&self) -> (r: bool)
        ensures
            r == (bits_of(self@ as u32, 1, 1) == 1),
    {
        extract_flag(self.0 as u32, 1)
    }

    /// This value with `nUARTCTS_modem_interrupt_mask` set to `value`; every other bit is kept.
    pub fn with_nUARTCTS_modem_interrupt_mask(self, value: bool) -> (r: InterruptMaskSetClearRegister)
        ensures
            r@ as u32 == with_bits(self@ as u32, 1, 1, bit_of_bool(value)),
    {
        InterruptMaskSetClearRegister(insert_u16(self.0, 1, 1, bit_from_bool(value)))
    }

    pub fn nUARTRI_modem_interrupt_mask(&self) -> (r: bool)
        ensures
            r == (bits_of(self@ as u32, 0, 1) == 1),
    {
        extract_flag(self.0 as u32, 0)
    }

    /// This value with `nUARTRI_modem_interrupt_mask` set to `value`; every other bit is kept.
    pub fn with_nUARTRI_modem_interrupt_mask(self, value: bool) -> (r: InterruptMaskSetClearRegister)
        ensures
            r@ as u32 == with_bits(self@ as u32, 0, 1, bit_of_bool(value)),
    {
        InterruptMaskSetClearRegister(insert_u16(self.0, 0, 1, bit_from_bool(value)))
    }
}
} // verus!
