//! Typed access to the registers of the ARM PrimeCell UART (PL011).
//!
//! Register values are plain integers; every field accessor goes through the
//! verified bit-range codec in [`codec`]. A [`UART`] names where the register
//! block lives, either as a constant ([`FixedAddress`]) or as a run-time
//! address (`usize`), and computes the address of each register in it.
use vstd::prelude::*;

pub mod codec;
pub mod ints;
pub mod registers;

verus! {

/// This trait is used to get the base address of the peripheral.
/// by using a trait it can be a constant or a runtime value.
pub trait BaseAddress: Copy {
    /// The address that this holder stands for; it never changes.
    spec fn spec_base_address(self) -> usize;

    fn base_address(self) -> (r: usize)
        ensures
            r == self.spec_base_address(),
    ;
}

/// for a runtime value, we can use a usize
impl BaseAddress for usize {
    open spec fn spec_base_address(self) -> usize {
        self
    }

    fn base_address(self) -> (r: usize) {
        self
    }
}

/// for a fixed address, we can use a struct with a const generic parameter
/// this is a zero-sized type, allowing us to use zero-sized and type-safe register blocks
#[derive(Debug, Clone, Copy)]
pub struct FixedAddress<const BASE: usize>;

impl<const BASE: usize> BaseAddress for FixedAddress<BASE> {
    open spec fn spec_base_address(self) -> usize {
        BASE
    }

    fn base_address(self) -> (r: usize) {
        BASE
    }
}

/// Byte offset of the data register (read/write).
pub const DATA_REGISTER_OFFSET: usize = 0x00;

/// Byte offset of the receive status register (read); a write at the same
/// offset is the error clear register.
pub const RECEIVE_STATUS_REGISTER_OFFSET: usize = 0x04;

/// Byte offset of the error clear register (write-only); a read at the same
/// offset is the receive status register.
pub const ERROR_CLEAR_REGISTER_OFFSET: usize = 0x04;

/// Byte offset of the flag register (read-only).
pub const FLAG_REGISTER_OFFSET: usize = 0x18;

/// Byte offset of the IrDA low-power counter register (read/write).
pub const IRDA_LOW_POWER_REGISTER_OFFSET: usize = 0x20;

/// Byte offset of the integer baud rate divisor register (read/write).
pub const INTEGER_BAUD_RATE_DIVISOR_REGISTER_OFFSET: usize = 0x24;

/// Byte offset of the fractional baud rate divisor register (read/write).
pub const FRACTIONAL_BAUD_RATE_DIVISOR_REGISTER_OFFSET: usize = 0x28;

/// Byte offset of the line control register (read/write).
pub const LINE_CONTROL_REGISTER_OFFSET: usize = 0x2C;

/// Byte offset of the control register (read/write).
pub const CONTROL_REGISTER_OFFSET: usize = 0x30;

/// Byte offset of the interrupt FIFO level select register (read/write).
pub const INTERRUPT_FIFO_LEVEL_SELECT_REGISTER_OFFSET: usize = 0x34;

/// Byte offset of the interrupt mask set/clear register (read/write).
pub const INTERRUPT_MASK_SET_CLEAR_REGISTER_OFFSET: usize = 0x38;

/// This is the main struct for the UART peripheral.
///
/// It takes a base address as a generic parameter.
/// This allows us to use a fixed address or a runtime value.
/// When `T = FixedAddress<BASE>`, the base address is a constant and this is a zero-sized type.
/// When `T = usize`, the base address is a runtime value and this struct is the size of a pointer.
///
/// Copying a `UART` copies the address only: every copy names the same
/// hardware, and callers serialise conflicting accesses themselves.
#[derive(Debug, Clone, Copy)]
pub struct UART<T: BaseAddress> {
    base: T,
}

impl<T: BaseAddress> UART<T> {
    /// The holder of the base address that this register block was made with.
    pub closed spec fn base(self) -> T {
        self.base
    }

    /// The register block at the address that `base` holds.
    pub fn new(base: T) -> (r: UART<T>)
        ensures
            r.base() == base,
    {
        UART { base }
    }

    /// The base address of the register block.
    pub fn base_address(&self) -> (r: usize)
        ensures
            r == self.base().spec_base_address(),
    {
        self.base.base_address()
    }

    /// The address of the register at byte `offset` in the block, or `None`
    /// where that address does not fit in a `usize`.
    pub fn register_address(&self, offset: usize) -> (r: Option<usize>)
        ensures
            r is Some <==> self.base().spec_base_address() + offset <= usize::MAX,
            r matches Some(a) ==> a == self.base().spec_base_address() + offset,
    {
        self.base_address().checked_add(offset)
    }
}

} // verus!
