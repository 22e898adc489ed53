//! The SSD1306 driver: transaction framing, size-limit enforcement, and the
//! page/column addressing operations, composed into initialize and clear.
//!
//! Every bus access goes through [`SSD1306::send_commands`] or
//! [`SSD1306::send_data`]: one framed transaction `[control byte, payload...]`
//! per call, rejected before any bus access when the payload exceeds
//! [`MAX_BUFFER_SIZE`]. The contracts state the exact bytes of every
//! transaction over the transport's own ghost history, and tie each
//! operation's result to the outcome the transport reported.

use vstd::prelude::*;

use crate::commands::{
    CHARGE_PUMP_ENABLE, COM_PINS_HW_CONFIG_ALT_DISABLE_REMAP, CONTRAST_MID,
    DISPLAY_CLOCK_DIVIDE_RATIO_AND_OSCILLATOR_FREQUENCY_NORMAL, DISPLAY_OFFSET_MIN,
    DISPLAY_START_LINE_0, MULTIPLEX_RATIO_MAX, MemoryAddressingMode, SET_CHARGE_PUMP,
    SET_COM_OUTPUT_SCAN_DIRECTION_NORMAL, SET_COM_PINS_HW_CONFIG, SET_CONTRAST,
    SET_DISPLAY_CLOCK_DIVIDE_RATIO_AND_OSCILLATOR_FREQUENCY, SET_DISPLAY_OFF,
    SET_DISPLAY_OFFSET, SET_DISPLAY_ON, SET_ENTIRE_DISPLAY_ON,
    SET_ENTIRE_DISPLAY_ON_IGNORE_RAM, SET_HIGHER_COLUMN_COMMAND, SET_LOWER_COLUMN_COMMAND,
    SET_MEMORY_ADDRESSING_MODE, SET_MULTIPLEX_RATIO, SET_NORMAL_DISPLAY,
    SET_PAGE_START_ADDRESS, SET_SEGMENT_REMAP_0_TO_SEG0,
};
use crate::transport::Transport;

verus! {

/// Largest payload (in bytes) a single transaction may carry; one control
/// byte is prefixed on top of this.
pub const MAX_BUFFER_SIZE: usize = 128;

/// The two fixed 7-bit bus addresses an SSD1306 can respond to.
#[derive(Debug, Clone, Copy)]
pub enum Address {
    DEFAULT,
    ALTERNATIVE,
}

impl Address {
    /// The 7-bit address value on the bus.
    pub open spec fn spec_value(self) -> u8 {
        match self {
            Address::DEFAULT => 0x3C,
            Address::ALTERNATIVE => 0x3D,
        }
    }

    /// The 7-bit address value on the bus.
    pub fn value(&self) -> (r: u8)
        ensures
            r == self.spec_value(),
    {
        match self {
            Address::DEFAULT => 0x3C,
            Address::ALTERNATIVE => 0x3D,
        }
    }
}

/// The single-byte discriminator prefixed to every transaction: the bytes
/// that follow are either controller commands or pixel data.
enum ControlByte {
    COMMAND,
    DATA,
}

impl ControlByte {
    fn value(&self) -> (r: u8)
        ensures
            self matches ControlByte::COMMAND ==> r == CONTROL_COMMAND,
            self matches ControlByte::DATA ==> r == CONTROL_DATA,
    {
        match self {
            ControlByte::COMMAND => 0x00,
            ControlByte::DATA => 0x40,
        }
    }
}

/// Control byte announcing a command transaction.
pub const CONTROL_COMMAND: u8 = 0x00;

/// Control byte announcing a data (pixel payload) transaction.
pub const CONTROL_DATA: u8 = 0x40;

/// What a driver operation can fail with.
#[derive(Debug)]
pub enum SSD1306Error<E> {
    /// The requested payload exceeds the transaction buffer; nothing was
    /// written to the bus.
    BufferTooSmall,
    /// A page or column argument lies outside the controller's range;
    /// nothing was written to the bus.
    OutOfRange,
    /// The transport reported a failure; its error value is forwarded
    /// unchanged.
    I2CError(E),
}

/// A framed transaction body: the control byte followed by the payload.
pub open spec fn framed(control: u8, payload: Seq<u8>) -> Seq<u8> {
    seq![control] + payload
}

/// The bus request a `send_commands(payload)` call produces.
pub open spec fn command_transaction(address: u8, payload: Seq<u8>) -> (u8, Seq<u8>) {
    (address, framed(CONTROL_COMMAND, payload))
}

/// The bus request a `send_data(payload)` call produces.
pub open spec fn data_transaction(address: u8, payload: Seq<u8>) -> (u8, Seq<u8>) {
    (address, framed(CONTROL_DATA, payload))
}

/// The request a `set_page(page)` call produces: one command byte, the
/// page-start-address base with the page index in its low three bits.
pub open spec fn page_transaction(address: u8, page: u8) -> (u8, Seq<u8>) {
    command_transaction(address, seq![SET_PAGE_START_ADDRESS | page])
}

/// The request a `set_column(column)` call produces: the lower-column
/// command carrying the low nibble, then the higher-column command carrying
/// the high nibble.
pub open spec fn column_transaction(address: u8, column: u8) -> (u8, Seq<u8>) {
    command_transaction(address, seq![column & 0x0F, 0x10 | ((column >> 4) & 0x0F)])
}

/// The request a `set_memory_addressing_page_mode(page, column)` call
/// produces: mode-select command, PAGE mode parameter, page start address,
/// then the two column commands (lower nibble, then higher-column command
/// with the high nibble).
pub open spec fn page_mode_transaction(address: u8, start_page: u8, start_column: u8) -> (
    u8,
    Seq<u8>,
) {
    command_transaction(
        address,
        seq![
            SET_MEMORY_ADDRESSING_MODE,
            MemoryAddressingMode::PAGE.spec_value(),
            SET_PAGE_START_ADDRESS | start_page,
            start_column & 0x0F,
            0x10 | ((start_column >> 4) & 0x0F),
        ],
    )
}

/// Exactly one transaction `tx` was issued: the transport's history gained
/// exactly that request, and the operation's result mirrors the write's
/// outcome — `Ok` if and only if the transport reported success, a failure's
/// error value forwarded unchanged inside `I2CError`.
pub open spec fn issued_one<E>(
    pre: Seq<((u8, Seq<u8>), Option<E>)>,
    post: Seq<((u8, Seq<u8>), Option<E>)>,
    tx: (u8, Seq<u8>),
    r: Result<(), SSD1306Error<E>>,
) -> bool {
    &&& (r matches Ok(_) ==> post == pre.push((tx, Option::<E>::None)))
    &&& (r matches Err(e) ==> e matches SSD1306Error::I2CError(_))
    &&& (r matches Err(SSD1306Error::I2CError(te)) ==> post == pre.push((tx, Some(te))))
}

/// A full page worth of zeroed pixel data: `MAX_BUFFER_SIZE` zero bytes.
pub open spec fn zero_payload() -> Seq<u8> {
    Seq::new(MAX_BUFFER_SIZE as nat, |i: int| 0u8)
}

/// Request number `i` (zero-based) of the 26 a `clear()` call issues: for
/// each page 0..=7 in order, a page select, a column select to 0, and a
/// zeroed data write; then a final page select to 0 and column select to 0
/// that leave the pointer in a known state.
pub open spec fn clear_step(address: u8, i: int) -> (u8, Seq<u8>) {
    if i < 24 {
        if i % 3 == 0 {
            page_transaction(address, (i / 3) as u8)
        } else if i % 3 == 1 {
            column_transaction(address, 0)
        } else {
            data_transaction(address, zero_payload())
        }
    } else if i == 24 {
        page_transaction(address, 0)
    } else {
        column_transaction(address, 0)
    }
}

/// The first `n` steps of the clear sequence, every write successful.
pub open spec fn clear_ok_prefix<E>(address: u8, n: int) -> Seq<(
    (u8, Seq<u8>),
    Option<E>,
)> {
    Seq::new(n as nat, |i: int| (clear_step(address, i), Option::<E>::None))
}

/// All 26 transactions of a fully successful `clear()` call, in order.
pub open spec fn clear_transactions<E>(address: u8) -> Seq<((u8, Seq<u8>), Option<E>)> {
    clear_ok_prefix(address, 26)
}

/// The datasheet-specified initialization payload, in its documented and
/// semantically required order (the charge pump is enabled before
/// display-on).
pub open spec fn init_sequence() -> Seq<u8> {
    seq![
        SET_DISPLAY_OFF,
        SET_MULTIPLEX_RATIO,
        MULTIPLEX_RATIO_MAX,
        SET_DISPLAY_OFFSET,
        DISPLAY_OFFSET_MIN,
        DISPLAY_START_LINE_0,
        SET_SEGMENT_REMAP_0_TO_SEG0,
        SET_COM_OUTPUT_SCAN_DIRECTION_NORMAL,
        SET_COM_PINS_HW_CONFIG,
        COM_PINS_HW_CONFIG_ALT_DISABLE_REMAP,
        SET_CONTRAST,
        CONTRAST_MID,
        SET_ENTIRE_DISPLAY_ON,
        SET_NORMAL_DISPLAY,
        SET_DISPLAY_CLOCK_DIVIDE_RATIO_AND_OSCILLATOR_FREQUENCY,
        DISPLAY_CLOCK_DIVIDE_RATIO_AND_OSCILLATOR_FREQUENCY_NORMAL,
        SET_CHARGE_PUMP,
        CHARGE_PUMP_ENABLE,
        SET_DISPLAY_ON,
    ]
}

/// Driver for one SSD1306 controller: owns the transport capability and the
/// fixed bus address chosen at construction.
pub struct SSD1306<I2C: Transport> {
    i2c: I2C,
    address: Address,
}

impl<I2C: Transport> SSD1306<I2C> {
    /// The transport this driver owns.
    pub closed spec fn spec_bus(&self) -> I2C {
        self.i2c
    }

    /// The transport's history of write calls: everything this driver has
    /// issued through it (and whatever the transport carried before),
    /// oldest first, each request paired with the outcome the transport
    /// reported.
    pub open spec fn transactions(&self) -> Seq<((u8, Seq<u8>), Option<I2C::TransportError>)> {
        self.spec_bus().history()
    }

    /// The 7-bit bus address this driver writes to.
    pub closed spec fn spec_address(&self) -> u8 {
        self.address.spec_value()
    }

    /// Stores the transport and the bus address. No bus I/O occurs; the
    /// device is not probed.
    pub fn new(i2c: I2C, address: Address) -> (r: Self)
        ensures
            r.spec_bus() == i2c,
            r.transactions() == i2c.history(),
            r.spec_address() == address.spec_value(),
    {
        SSD1306 { i2c, address }
    }

    /// Gives the transport back, consuming the driver.
    pub fn release(self) -> (r: I2C)
        ensures
            r == self.spec_bus(),
    {
        self.i2c
    }

    /// Sends one framed transaction: the control byte, then the payload.
    fn send_framed(&mut self, control: ControlByte, payload: &[u8]) -> (r: Result<
        (),
        SSD1306Error<I2C::TransportError>,
    >)
        ensures
            final(self).spec_address() == old(self).spec_address(),
            payload@.len() > MAX_BUFFER_SIZE ==> {
                &&& r matches Err(SSD1306Error::BufferTooSmall)
                &&& final(self).spec_bus() == old(self).spec_bus()
                &&& final(self).transactions() == old(self).transactions()
            },
            payload@.len() <= MAX_BUFFER_SIZE ==> {
                &&& (control matches ControlByte::COMMAND ==> issued_one(
                    old(self).transactions(),
                    final(self).transactions(),
                    command_transaction(old(self).spec_address(), payload@),
                    r,
                ))
                &&& (control matches ControlByte::DATA ==> issued_one(
                    old(self).transactions(),
                    final(self).transactions(),
                    data_transaction(old(self).spec_address(), payload@),
                    r,
                ))
            },
    {
        if payload.len() > MAX_BUFFER_SIZE {
            return Err(SSD1306Error::BufferTooSmall);
        }
        let control_value = control.value();
        let mut buffer: Vec<u8> = Vec::new();
        buffer.push(control_value);
        let mut i: usize = 0;
        while i < payload.len()
            invariant
                i <= payload@.len(),
                buffer@ == seq![control_value] + payload@.take(i as int),
            decreases payload@.len() - i,
        {
            buffer.push(payload[i]);
            i += 1;
        }
        proof {
            assert(buffer@ =~= framed(control_value, payload@));
        }
        let address = self.address.value();
        let result = self.i2c.write(address, buffer.as_slice());
        match result {
            Ok(()) => Ok(()),
            Err(e) => Err(SSD1306Error::I2CError(e)),
        }
    }

    /// Sends the payload as controller commands: one transaction whose first
    /// byte is the COMMAND control byte and whose remaining bytes are the
    /// payload unchanged, in order; the result mirrors the transport's
    /// outcome. Payloads over `MAX_BUFFER_SIZE` bytes are rejected before
    /// any bus access.
    pub fn send_commands(&mut self, commands: &[u8]) -> (r: Result<
        (),
        SSD1306Error<I2C::TransportError>,
    >)
        ensures
            final(self).spec_address() == old(self).spec_address(),
            commands@.len() > MAX_BUFFER_SIZE ==> {
                &&& r matches Err(SSD1306Error::BufferTooSmall)
                &&& final(self).spec_bus() == old(self).spec_bus()
                &&& final(self).transactions() == old(self).transactions()
            },
            commands@.len() <= MAX_BUFFER_SIZE ==> issued_one(
                old(self).transactions(),
                final(self).transactions(),
                command_transaction(old(self).spec_address(), commands@),
                r,
            ),
    {
        self.send_framed(ControlByte::COMMAND, commands)
    }

    /// Sends the payload as pixel data for the current page/column pointer:
    /// one transaction whose first byte is the DATA control byte and whose
    /// remaining bytes are the payload unchanged, in order; the result
    /// mirrors the transport's outcome. Payloads over `MAX_BUFFER_SIZE`
    /// bytes are rejected before any bus access.
    pub fn send_data(&mut self, data: &[u8]) -> (r: Result<
        (),
        SSD1306Error<I2C::TransportError>,
    >)
        ensures
            final(self).spec_address() == old(self).spec_address(),
            data@.len() > MAX_BUFFER_SIZE ==> {
                &&& r matches Err(SSD1306Error::BufferTooSmall)
                &&& final(self).spec_bus() == old(self).spec_bus()
                &&& final(self).transactions() == old(self).transactions()
            },
            data@.len() <= MAX_BUFFER_SIZE ==> issued_one(
                old(self).transactions(),
                final(self).transactions(),
                data_transaction(old(self).spec_address(), data@),
                r,
            ),
    {
        self.send_framed(ControlByte::DATA, data)
    }

    /// Sends the fixed datasheet initialization sequence as a single
    /// command transaction: exactly one bus write carrying the 19 bytes of
    /// `init_sequence`, in that order; succeeds if and only if that write
    /// succeeds.
    pub fn init(&mut self) -> (r: Result<(), SSD1306Error<I2C::TransportError>>)
        ensures
            final(self).spec_address() == old(self).spec_address(),
            issued_one(
                old(self).transactions(),
                final(self).transactions(),
                command_transaction(old(self).spec_address(), init_sequence()),
                r,
            ),
    {
        let mut payload: Vec<u8> = Vec::new();
        payload.push(SET_DISPLAY_OFF);
        payload.push(SET_MULTIPLEX_RATIO);
        payload.push(MULTIPLEX_RATIO_MAX);
        payload.push(SET_DISPLAY_OFFSET);
        payload.push(DISPLAY_OFFSET_MIN);
        payload.push(DISPLAY_START_LINE_0);
        payload.push(SET_SEGMENT_REMAP_0_TO_SEG0);
        payload.push(SET_COM_OUTPUT_SCAN_DIRECTION_NORMAL);
        payload.push(SET_COM_PINS_HW_CONFIG);
        payload.push(COM_PINS_HW_CONFIG_ALT_DISABLE_REMAP);
        payload.push(SET_CONTRAST);
        payload.push(CONTRAST_MID);
        payload.push(SET_ENTIRE_DISPLAY_ON);
        payload.push(SET_NORMAL_DISPLAY);
        payload.push(SET_DISPLAY_CLOCK_DIVIDE_RATIO_AND_OSCILLATOR_FREQUENCY);
        payload.push(DISPLAY_CLOCK_DIVIDE_RATIO_AND_OSCILLATOR_FREQUENCY_NORMAL);
        payload.push(SET_CHARGE_PUMP);
        payload.push(CHARGE_PUMP_ENABLE);
        payload.push(SET_DISPLAY_ON);
        proof {
            assert(payload@ =~= init_sequence());
        }
        self.send_commands(payload.as_slice())
    }

    /// Selects PAGE addressing mode and positions the pointer at
    /// `start_page`/`start_column`, all in one command transaction, so the
    /// controller never observes a half-configured setup. Out-of-range
    /// arguments are rejected before any bus access.
    pub fn set_memory_addressing_page_mode(&mut self, start_page: u8, start_column: u8) -> (r:
        Result<(), SSD1306Error<I2C::TransportError>>)
        ensures
            final(self).spec_address() == old(self).spec_address(),
            start_page >= 8 || start_column >= 128 ==> {
                &&& r matches Err(SSD1306Error::OutOfRange)
                &&& final(self).spec_bus() == old(self).spec_bus()
                &&& final(self).transactions() == old(self).transactions()
            },
            start_page < 8 && start_column < 128 ==> issued_one(
                old(self).transactions(),
                final(self).transactions(),
                page_mode_transaction(old(self).spec_address(), start_page, start_column),
                r,
            ),
    {
        if start_page >= 8 || start_column >= 128 {
            return Err(SSD1306Error::OutOfRange);
        }
        let start_page_address = SET_PAGE_START_ADDRESS | start_page;
        let lower_command = SET_LOWER_COLUMN_COMMAND | (start_column & 0x0F);
        let higher_command = SET_HIGHER_COLUMN_COMMAND | ((start_column >> 4) & 0x0F);
        let mode = MemoryAddressingMode::PAGE;
        let mut payload: Vec<u8> = Vec::new();
        payload.push(SET_MEMORY_ADDRESSING_MODE);
        payload.push(mode.value());
        payload.push(start_page_address);
        payload.push(lower_command);
        payload.push(higher_command);
        proof {
            assert(0x00u8 | (start_column & 0x0F) == (start_column & 0x0F)) by (bit_vector);
            assert(payload@ =~= seq![
                SET_MEMORY_ADDRESSING_MODE,
                MemoryAddressingMode::PAGE.spec_value(),
                SET_PAGE_START_ADDRESS | start_page,
                start_column & 0x0F,
                0x10 | ((start_column >> 4) & 0x0F),
            ]);
        }
        self.send_commands(payload.as_slice())
    }

    /// Moves the page component of the addressing pointer: one command
    /// transaction of one byte, the page-start-address base or-ed with the
    /// page index. Pages above 7 are rejected before any bus access.
    pub fn set_page(&mut self, page: u8) -> (r: Result<(), SSD1306Error<I2C::TransportError>>)
        ensures
            final(self).spec_address() == old(self).spec_address(),
            page >= 8 ==> {
                &&& r matches Err(SSD1306Error::OutOfRange)
                &&& final(self).spec_bus() == old(self).spec_bus()
                &&& final(self).transactions() == old(self).transactions()
            },
            page < 8 ==> issued_one(
                old(self).transactions(),
                final(self).transactions(),
                page_transaction(old(self).spec_address(), page),
                r,
            ),
    {
        if page >= 8 {
            return Err(SSD1306Error::OutOfRange);
        }
        let page_address = SET_PAGE_START_ADDRESS | page;
        let mut payload: Vec<u8> = Vec::new();
        payload.push(page_address);
        proof {
            assert(payload@ =~= seq![SET_PAGE_START_ADDRESS | page]);
        }
        self.send_commands(payload.as_slice())
    }

    /// Moves the column component of the addressing pointer: one command
    /// transaction of two bytes, the lower-column command with the low
    /// nibble then the higher-column command with the high nibble, together
    /// so the pointer is never left half-set. Columns above 127 are
    /// rejected before any bus access.
    pub fn set_column(&mut self, column: u8) -> (r: Result<(), SSD1306Error<I2C::TransportError>>)
        ensures
            final(self).spec_address() == old(self).spec_address(),
            column >= 128 ==> {
                &&& r matches Err(SSD1306Error::OutOfRange)
                &&& final(self).spec_bus() == old(self).spec_bus()
                &&& final(self).transactions() == old(self).transactions()
            },
            column < 128 ==> issued_one(
                old(self).transactions(),
                final(self).transactions(),
                column_transaction(old(self).spec_address(), column),
                r,
            ),
    {
        if column >= 128 {
            return Err(SSD1306Error::OutOfRange);
        }
        let lower_command = SET_LOWER_COLUMN_COMMAND | (column & 0x0F);
        let higher_command = SET_HIGHER_COLUMN_COMMAND | ((column >> 4) & 0x0F);
        let mut payload: Vec<u8> = Vec::new();
        payload.push(lower_command);
        payload.push(higher_command);
        proof {
            assert(0x00u8 | (column & 0x0F) == (column & 0x0F)) by (bit_vector);
            assert(payload@ =~= seq![column & 0x0F, 0x10 | ((column >> 4) & 0x0F)]);
        }
        self.send_commands(payload.as_slice())
    }

    /// Zeroes the whole display RAM: for each page 0..=7 in order, selects
    /// the page, resets the column to 0, and writes `MAX_BUFFER_SIZE` zero
    /// bytes; then selects page 0 and column 0 again so the pointer is left
    /// in a known state — 26 transactions in all. Succeeds if and only if
    /// every write succeeds; a failure aborts immediately, the history ends
    /// at the failing write, and that write's error is forwarded unchanged.
    pub fn clear(&mut self) -> (r: Result<(), SSD1306Error<I2C::TransportError>>)
        ensures
            final(self).spec_address() == old(self).spec_address(),
            r matches Ok(_) ==> final(self).transactions() == old(self).transactions()
                + clear_transactions::<I2C::TransportError>(old(self).spec_address()),
            r matches Err(e) ==> e matches SSD1306Error::I2CError(_),
            r matches Err(SSD1306Error::I2CError(te)) ==> exists|k: int|
                0 <= k < 26 && final(self).transactions() == old(self).transactions()
                    + clear_ok_prefix::<I2C::TransportError>(old(self).spec_address(), k).push(
                    (clear_step(old(self).spec_address(), k), Some(te)),
                ),
    {
        let ghost addr = self.spec_address();
        let ghost t0 = self.transactions();
        let mut buffer: Vec<u8> = Vec::new();
        let mut j: usize = 0;
        while j < MAX_BUFFER_SIZE
            invariant
                j <= MAX_BUFFER_SIZE,
                buffer@.len() == j as int,
                forall|i: int| 0 <= i < j as int ==> buffer@[i] == 0u8,
            decreases MAX_BUFFER_SIZE - j,
        {
            buffer.push(0u8);
            j += 1;
        }
        proof {
            assert(buffer@ =~= zero_payload());
            assert(t0 + clear_ok_prefix::<I2C::TransportError>(addr, 0) =~= t0);
        }
        let mut page: u8 = 0;
        while page < 8
            invariant
                page <= 8,
                addr == old(self).spec_address(),
                t0 == old(self).transactions(),
                self.spec_address() == addr,
                self.transactions() == t0 + clear_ok_prefix::<I2C::TransportError>(
                    addr,
                    3 * page as int,
                ),
                buffer@ == zero_payload(),
            decreases 8 - page,
        {
            let ghost base = 3 * page as int;
            proof {
                assert(clear_step(addr, base) == page_transaction(addr, page));
                assert(clear_step(addr, base + 1) == column_transaction(addr, 0));
                assert(clear_step(addr, base + 2) == data_transaction(addr, zero_payload()));
            }
            match self.set_page(page) {
                Ok(_) => {},
                Err(e) => {
                    proof {
                        if let SSD1306Error::I2CError(te) = &e {
                            assert(self.transactions() =~= t0 + clear_ok_prefix::<
                                I2C::TransportError,
                            >(addr, base).push((clear_step(addr, base), Some(*te))));
                        }
                    }
                    return Err(e);
                },
            }
            proof {
                assert(self.transactions() =~= t0 + clear_ok_prefix::<I2C::TransportError>(
                    addr,
                    base + 1,
                ));
            }
            match self.set_column(0) {
                Ok(_) => {},
                Err(e) => {
                    proof {
                        if let SSD1306Error::I2CError(te) = &e {
                            assert(self.transactions() =~= t0 + clear_ok_prefix::<
                                I2C::TransportError,
                            >(addr, base + 1).push((clear_step(addr, base + 1), Some(*te))));
                        }
                    }
                    return Err(e);
                },
            }
            proof {
                assert(self.transactions() =~= t0 + clear_ok_prefix::<I2C::TransportError>(
                    addr,
                    base + 2,
                ));
            }
            match self.send_data(buffer.as_slice()) {
                Ok(_) => {},
                Err(e) => {
                    proof {
                        if let SSD1306Error::I2CError(te) = &e {
                            assert(self.transactions() =~= t0 + clear_ok_prefix::<
                                I2C::TransportError,
                            >(addr, base + 2).push((clear_step(addr, base + 2), Some(*te))));
                        }
                    }
                    return Err(e);
                },
            }
            proof {
                assert(self.transactions() =~= t0 + clear_ok_prefix::<I2C::TransportError>(
                    addr,
                    base + 3,
                ));
            }
            page += 1;
        }
        proof {
            assert(clear_step(addr, 24) == page_transaction(addr, 0));
            assert(clear_step(addr, 25) == column_transaction(addr, 0));
        }
        match self.set_page(0) {
            Ok(_) => {},
            Err(e) => {
                proof {
                    if let SSD1306Error::I2CError(te) = &e {
                        assert(self.transactions() =~= t0 + clear_ok_prefix::<
                            I2C::TransportError,
                        >(addr, 24).push((clear_step(addr, 24), Some(*te))));
                    }
                }
                return Err(e);
            },
        }
        proof {
            assert(self.transactions() =~= t0 + clear_ok_prefix::<I2C::TransportError>(addr, 25));
        }
        match self.set_column(0) {
            Ok(_) => {},
            Err(e) => {
                proof {
                    if let SSD1306Error::I2CError(te) = &e {
                        assert(self.transactions() =~= t0 + clear_ok_prefix::<
                            I2C::TransportError,
                        >(addr, 25).push((clear_step(addr, 25), Some(*te))));
                    }
                }
                return Err(e);
            },
        }
        proof {
            assert(self.transactions() =~= t0 + clear_ok_prefix::<I2C::TransportError>(addr, 26));
        }
        Ok(())
    }

    /// Resumes RAM-driven output: one command transaction of one byte,
    /// selecting the entire-display-on variant under which output follows
    /// RAM content.
    pub fn display_on(&mut self) -> (r: Result<(), SSD1306Error<I2C::TransportError>>)
        ensures
            final(self).spec_address() == old(self).spec_address(),
            issued_one(
                old(self).transactions(),
                final(self).transactions(),
                command_transaction(old(self).spec_address(), seq![SET_ENTIRE_DISPLAY_ON]),
                r,
            ),
    {
        let mut payload: Vec<u8> = Vec::new();
        payload.push(SET_ENTIRE_DISPLAY_ON);
        proof {
            assert(payload@ =~= seq![SET_ENTIRE_DISPLAY_ON]);
        }
        self.send_commands(payload.as_slice())
    }

    /// Switches to the all-pixels-on diagnostic mode that ignores RAM: one
    /// command transaction of one byte.
    pub fn display_on_ignore_ram(&mut self) -> (r: Result<(), SSD1306Error<I2C::TransportError>>)
        ensures
            final(self).spec_address() == old(self).spec_address(),
            issued_one(
                old(self).transactions(),
                final(self).transactions(),
                command_transaction(
                    old(self).spec_address(),
                    seq![SET_ENTIRE_DISPLAY_ON_IGNORE_RAM],
                ),
                r,
            ),
    {
        let mut payload: Vec<u8> = Vec::new();
        payload.push(SET_ENTIRE_DISPLAY_ON_IGNORE_RAM);
        proof {
            assert(payload@ =~= seq![SET_ENTIRE_DISPLAY_ON_IGNORE_RAM]);
        }
        self.send_commands(payload.as_slice())
    }
}

} // verus!
