use vstd::prelude::*;

use crate::error::Error;

verus! {

/// Size in bytes of the driver's control block.
pub const DCB_LENGTH: u32 = 28;

pub const CBR_110: u32 = 110;
pub const CBR_300: u32 = 300;
pub const CBR_600: u32 = 600;
pub const CBR_1200: u32 = 1200;
pub const CBR_2400: u32 = 2400;
pub const CBR_4800: u32 = 4800;
pub const CBR_9600: u32 = 9600;
pub const CBR_19200: u32 = 19200;
pub const CBR_38400: u32 = 38400;
pub const CBR_57600: u32 = 57600;
pub const CBR_115200: u32 = 115200;

pub const NOPARITY: u8 = 0;
pub const ODDPARITY: u8 = 1;
pub const EVENPARITY: u8 = 2;

pub const ONESTOPBIT: u8 = 0;
pub const TWOSTOPBITS: u8 = 2;

/// Flag word bit: CTS output flow control.
pub const F_OUTX_CTS_FLOW: u32 = 0x0004;
/// Flag word bit: XON/XOFF output flow control.
pub const F_OUTX: u32 = 0x0100;
/// Flag word bit: XON/XOFF input flow control.
pub const F_INX: u32 = 0x0200;
/// Flag word field (two bits) for RTS control.
pub const F_RTS_CONTROL: u32 = 0x3000;

/// The bits that say hardware (RTS/CTS) flow control.
pub const HARDWARE_FLOW_BITS: u32 = 0x3004;
/// The bits that say software (XON/XOFF) flow control.
pub const SOFTWARE_FLOW_BITS: u32 = 0x0300;

/// The driver's fixed-layout device control block.
#[derive(Clone, Copy, Debug, PartialEq, Eq, Structural)]
pub struct Dcb {
    pub dcb_length: u32,
    pub baud_rate: u32,
    /// Flag word: one bit or bit field per line option.
    pub flags: u32,
    pub reserved: u16,
    pub xon_lim: u16,
    pub xoff_lim: u16,
    pub byte_size: u8,
    pub parity: u8,
    pub stop_bits: u8,
    pub xon_char: i8,
    pub xoff_char: i8,
    pub error_char: i8,
    pub eof_char: i8,
    pub evt_char: i8,
    pub reserved1: u16,
}

impl Dcb {
    /// A zeroed block with its length field set.
    pub fn new() -> (r: Dcb)
        ensures
            r == (Dcb {
                dcb_length: DCB_LENGTH,
                baud_rate: 0,
                flags: 0,
                reserved: 0,
                xon_lim: 0,
                xoff_lim: 0,
                byte_size: 0,
                parity: 0,
                stop_bits: 0,
                xon_char: 0,
                xoff_char: 0,
                error_char: 0,
                eof_char: 0,
                evt_char: 0,
                reserved1: 0,
            }),
    {
        Dcb {
            dcb_length: DCB_LENGTH,
            baud_rate: 0,
            flags: 0,
            reserved: 0,
            xon_lim: 0,
            xoff_lim: 0,
            byte_size: 0,
            parity: 0,
            stop_bits: 0,
            xon_char: 0,
            xoff_char: 0,
            error_char: 0,
            eof_char: 0,
            evt_char: 0,
            reserved1: 0,
        }
    }
}

/// A baud rate: one of the named rates, or any other number of bits per second.
#[derive(Clone, Copy, Debug, PartialEq, Eq, Structural)]
pub enum BaudRate {
    Baud110,
    Baud300,
    Baud600,
    Baud1200,
    Baud2400,
    Baud4800,
    Baud9600,
    Baud19200,
    Baud38400,
    Baud57600,
    Baud115200,
    BaudOther(usize),
}

/// Bits per character.
#[derive(Clone, Copy, Debug, PartialEq, Eq, Structural)]
pub enum CharSize {
    Bits5,
    Bits6,
    Bits7,
    Bits8,
}

#[derive(Clone, Copy, Debug, PartialEq, Eq, Structural)]
pub enum Parity {
    ParityNone,
    ParityOdd,
    ParityEven,
}

#[derive(Clone, Copy, Debug, PartialEq, Eq, Structural)]
pub enum StopBits {
    Stop1,
    Stop2,
}

#[derive(Clone, Copy, Debug, PartialEq, Eq, Structural)]
pub enum FlowControl {
    FlowNone,
    FlowSoftware,
    FlowHardware,
}

/// Whether a baud rate has a code in the control block.
pub open spec fn baud_fits(b: BaudRate) -> bool {
    match b {
        BaudRate::BaudOther(n) => n <= u32::MAX,
        _ => true,
    }
}

/// The control block's code for a baud rate (meaningful where `baud_fits`).
pub open spec fn baud_code(b: BaudRate) -> u32 {
    match b {
        BaudRate::Baud110 => CBR_110,
        BaudRate::Baud300 => CBR_300,
        BaudRate::Baud600 => CBR_600,
        BaudRate::Baud1200 => CBR_1200,
        BaudRate::Baud2400 => CBR_2400,
        BaudRate::Baud4800 => CBR_4800,
        BaudRate::Baud9600 => CBR_9600,
        BaudRate::Baud19200 => CBR_19200,
        BaudRate::Baud38400 => CBR_38400,
        BaudRate::Baud57600 => CBR_57600,
        BaudRate::Baud115200 => CBR_115200,
        BaudRate::BaudOther(n) => n as u32,
    }
}

/// Whether a number is the code of one of the named rates.
pub open spec fn is_named_code(n: int) -> bool {
    n == CBR_110 || n == CBR_300 || n == CBR_600 || n == CBR_1200 || n == CBR_2400 || n
        == CBR_4800 || n == CBR_9600 || n == CBR_19200 || n == CBR_38400 || n == CBR_57600 || n
        == CBR_115200
}

/// The baud rate that a control block code stands for.
pub open spec fn baud_of(code: u32) -> BaudRate {
    if code == CBR_110 {
        BaudRate::Baud110
    } else if code == CBR_300 {
        BaudRate::Baud300
    } else if code == CBR_600 {
        BaudRate::Baud600
    } else if code == CBR_1200 {
        BaudRate::Baud1200
    } else if code == CBR_2400 {
        BaudRate::Baud2400
    } else if code == CBR_4800 {
        BaudRate::Baud4800
    } else if code == CBR_9600 {
        BaudRate::Baud9600
    } else if code == CBR_19200 {
        BaudRate::Baud19200
    } else if code == CBR_38400 {
        BaudRate::Baud38400
    } else if code == CBR_57600 {
        BaudRate::Baud57600
    } else if code == CBR_115200 {
        BaudRate::Baud115200
    } else {
        BaudRate::BaudOther(code as usize)
    }
}

pub open spec fn char_size_code(c: CharSize) -> u8 {
    match c {
        CharSize::Bits5 => 5,
        CharSize::Bits6 => 6,
        CharSize::Bits7 => 7,
        CharSize::Bits8 => 8,
    }
}

pub open spec fn char_size_of(code: u8) -> Option<CharSize> {
    if code == 5 {
        Some(CharSize::Bits5)
    } else if code == 6 {
        Some(CharSize::Bits6)
    } else if code == 7 {
        Some(CharSize::Bits7)
    } else if code == 8 {
        Some(CharSize::Bits8)
    } else {
        None
    }
}

pub open spec fn parity_code(p: Parity) -> u8 {
    match p {
        Parity::ParityNone => NOPARITY,
        Parity::ParityOdd => ODDPARITY,
        Parity::ParityEven => EVENPARITY,
    }
}

pub open spec fn parity_of(code: u8) -> Option<Parity> {
    if code == ODDPARITY {
        Some(Parity::ParityOdd)
    } else if code == EVENPARITY {
        Some(Parity::ParityEven)
    } else if code == NOPARITY {
        Some(Parity::ParityNone)
    } else {
        None
    }
}

pub open spec fn stop_bits_code(s: StopBits) -> u8 {
    match s {
        StopBits::Stop1 => ONESTOPBIT,
        StopBits::Stop2 => TWOSTOPBITS,
    }
}

pub open spec fn stop_bits_of(code: u8) -> Option<StopBits> {
    if code == TWOSTOPBITS {
        Some(StopBits::Stop2)
    } else if code == ONESTOPBIT {
        Some(StopBits::Stop1)
    } else {
        None
    }
}

/// The flow control mode that a flag word says: any hardware bit wins, then
/// any software bit, else none.
pub open spec fn flow_of(flags: u32) -> FlowControl {
    if flags & HARDWARE_FLOW_BITS != 0 {
        FlowControl::FlowHardware
    } else if flags & SOFTWARE_FLOW_BITS != 0 {
        FlowControl::FlowSoftware
    } else {
        FlowControl::FlowNone
    }
}

/// The flag word with a flow control mode written in: both bit groups are
/// cleared first, then the mode's own bits set.
pub open spec fn with_flow(flags: u32, m: FlowControl) -> u32 {
    let cleared = flags & !(HARDWARE_FLOW_BITS | SOFTWARE_FLOW_BITS);
    match m {
        FlowControl::FlowNone => cleared,
        FlowControl::FlowSoftware => cleared | (F_OUTX | F_INX),
        FlowControl::FlowHardware => cleared | (F_OUTX_CTS_FLOW | F_RTS_CONTROL),
    }
}

/// Both flow control bit groups as a mode leaves them: all of the mode's own
/// group set and all of the other group clear; for no flow control, both clear.
pub open spec fn flow_groups_hold(flags: u32, m: FlowControl) -> bool {
    match m {
        FlowControl::FlowHardware => flags & HARDWARE_FLOW_BITS == HARDWARE_FLOW_BITS && flags
            & SOFTWARE_FLOW_BITS == 0,
        FlowControl::FlowSoftware => flags & SOFTWARE_FLOW_BITS == SOFTWARE_FLOW_BITS && flags
            & HARDWARE_FLOW_BITS == 0,
        FlowControl::FlowNone => flags & (HARDWARE_FLOW_BITS | SOFTWARE_FLOW_BITS) == 0,
    }
}

/// Line settings of a COM port, held as the driver's control block.
#[derive(Clone, Copy, Debug)]
pub struct COMSettings {
    inner: Dcb,
}

impl View for COMSettings {
    type V = Dcb;

    closed spec fn view(&self) -> Dcb {
        self.inner
    }
}

impl COMSettings {
    /// Settings held in the given control block.
    pub fn from_dcb(dcb: Dcb) -> (r: COMSettings)
        ensures
            r@ == dcb,
    {
        COMSettings { inner: dcb }
    }

    /// The control block that these settings are held in.
    pub fn dcb(&self) -> (r: Dcb)
        ensures
            r == self@,
    {
        self.inner
    }

    pub fn baud_rate(&self) -> (r: Option<BaudRate>)
        ensures
            r == Some(baud_of(self@.baud_rate)),
    {
        let code = self.inner.baud_rate;
        let b = if code == CBR_110 {
            BaudRate::Baud110
        } else if code == CBR_300 {
            BaudRate::Baud300
        } else if code == CBR_600 {
            BaudRate::Baud600
        } else if code == CBR_1200 {
            BaudRate::Baud1200
        } else if code == CBR_2400 {
            BaudRate::Baud2400
        } else if code == CBR_4800 {
            BaudRate::Baud4800
        } else if code == CBR_9600 {
            BaudRate::Baud9600
        } else if code == CBR_19200 {
            BaudRate::Baud19200
        } else if code == CBR_38400 {
            BaudRate::Baud38400
        } else if code == CBR_57600 {
            BaudRate::Baud57600
        } else if code == CBR_115200 {
            BaudRate::Baud115200
        } else {
            BaudRate::BaudOther(code as usize)
        };
        Some(b)
    }

    pub fn char_size(&self) -> (r: Option<CharSize>)
        ensures
            r == char_size_of(self@.byte_size),
    {
        match self.inner.byte_size {
            5 => Some(CharSize::Bits5),
            6 => Some(CharSize::Bits6),
            7 => Some(CharSize::Bits7),
            8 => Some(CharSize::Bits8),
            _ => None,
        }
    }

    pub fn parity(&self) -> (r: Option<Parity>)
        ensures
            r == parity_of(self@.parity),
    {
        let code = self.inner.parity;
        if code == ODDPARITY {
            Some(Parity::ParityOdd)
        } else if code == EVENPARITY {
            Some(Parity::ParityEven)
        } else if code == NOPARITY {
            Some(Parity::ParityNone)
        } else {
            None
        }
    }

    pub fn stop_bits(&self) -> (r: Option<StopBits>)
        ensures
            r == stop_bits_of(self@.stop_bits),
    {
        let code = self.inner.stop_bits;
        if code == TWOSTOPBITS {
            Some(StopBits::Stop2)
        } else if code == ONESTOPBIT {
            Some(StopBits::Stop1)
        } else {
            None
        }
    }

    /// The flow control mode, derived from the flag word; always known.
    pub fn flow_control(&self) -> (r: Option<FlowControl>)
        ensures
            r == Some(flow_of(self@.flags)),
    {
        let flags = self.inner.flags;
        if flags & HARDWARE_FLOW_BITS != 0 {
            Some(FlowControl::FlowHardware)
        } else if flags & SOFTWARE_FLOW_BITS != 0 {
            Some(FlowControl::FlowSoftware)
        } else {
            Some(FlowControl::FlowNone)
        }
    }

    /// Writes a baud rate's code; a rate too large for the block's code field
    /// is refused with `InvalidInput` and nothing changes.
    pub fn set_baud_rate(&mut self, baud_rate: BaudRate) -> (r: Result<(), Error>)
        ensures
            baud_fits(baud_rate) ==> r == Ok::<(), Error>(()) && final(self)@ == (Dcb {
                baud_rate: baud_code(baud_rate),
                ..old(self)@
            }),
            !baud_fits(baud_rate) ==> r == Err::<(), Error>(Error::InvalidInput)
                && final(self)@ == old(self)@,
    {
        let code: u32 = match baud_rate {
            BaudRate::Baud110 => CBR_110,
            BaudRate::Baud300 => CBR_300,
            BaudRate::Baud600 => CBR_600,
            BaudRate::Baud1200 => CBR_1200,
            BaudRate::Baud2400 => CBR_2400,
            BaudRate::Baud4800 => CBR_4800,
            BaudRate::Baud9600 => CBR_9600,
            BaudRate::Baud19200 => CBR_19200,
            BaudRate::Baud38400 => CBR_38400,
            BaudRate::Baud57600 => CBR_57600,
            BaudRate::Baud115200 => CBR_115200,
            BaudRate::BaudOther(n) => {
                if n > (u32::MAX as usize) {
                    return Err(Error::InvalidInput);
                }
                n as u32
            },
        };
        self.inner.baud_rate = code;
        Ok(())
    }

    pub fn set_char_size(&mut self, char_size: CharSize)
        ensures
            final(self)@ == (Dcb { byte_size: char_size_code(char_size), ..old(self)@ }),
    {
        self.inner.byte_size = match char_size {
            CharSize::Bits5 => 5,
            CharSize::Bits6 => 6,
            CharSize::Bits7 => 7,
            CharSize::Bits8 => 8,
        };
    }

    pub fn set_parity(&mut self, parity: Parity)
        ensures
            final(self)@ == (Dcb { parity: parity_code(parity), ..old(self)@ }),
    {
        self.inner.parity = match parity {
            Parity::ParityNone => NOPARITY,
            Parity::ParityOdd => ODDPARITY,
            Parity::ParityEven => EVENPARITY,
        };
    }

    pub fn set_stop_bits(&mut self, stop_bits: StopBits)
        ensures
            final(self)@ == (Dcb { stop_bits: stop_bits_code(stop_bits), ..old(self)@ }),
    {
        self.inner.stop_bits = match stop_bits {
            StopBits::Stop1 => ONESTOPBIT,
            StopBits::Stop2 => TWOSTOPBITS,
        };
    }

    /// Writes a flow control mode into the flag word, clearing the other
    /// mode's bits; no other bit of the word changes.
    pub fn set_flow_control(&mut self, flow_control: FlowControl)
        ensures
            final(self)@ == (Dcb { flags: with_flow(old(self)@.flags, flow_control), ..old(self)@ }),
            flow_of(final(self)@.flags) == flow_control,
            flow_groups_hold(final(self)@.flags, flow_control),
    {
        let flags = self.inner.flags;
        let cleared = flags & !(HARDWARE_FLOW_BITS | SOFTWARE_FLOW_BITS);
        self.inner.flags = match flow_control {
            FlowControl::FlowNone => cleared,
            FlowControl::FlowSoftware => cleared | (F_OUTX | F_INX),
            FlowControl::FlowHardware => cleared | (F_OUTX_CTS_FLOW | F_RTS_CONTROL),
        };
        proof {
            lemma_flow_round_trip(flags, flow_control);
            lemma_flow_groups(flags, flow_control);
        }
    }
}

/// Reading back a flow control mode just written gives that mode, whatever
/// the flag word held before.
pub proof fn lemma_flow_round_trip(flags: u32, m: FlowControl)
    ensures
        flow_of(with_flow(flags, m)) == m,
{
    let cleared = flags & !(0x3004u32 | 0x0300u32);
    assert(cleared & 0x3004u32 == 0 && cleared & 0x0300u32 == 0) by (bit_vector)
        requires
            cleared == flags & !(0x3004u32 | 0x0300u32),
    ;
    assert((cleared | (0x0100u32 | 0x0200u32)) & 0x3004u32 == 0) by (bit_vector)
        requires
            cleared & 0x3004u32 == 0,
    ;
    assert((cleared | (0x0100u32 | 0x0200u32)) & 0x0300u32 != 0) by (bit_vector);
    assert((cleared | (0x0004u32 | 0x3000u32)) & 0x3004u32 != 0) by (bit_vector);
}

/// A baud rate written into a control block reads back as itself: a named
/// rate as that rate, and a number that names no rate (and fits the code
/// field) as the same number.
pub proof fn lemma_baud_round_trip(b: BaudRate)
    requires
        baud_fits(b),
        b matches BaudRate::BaudOther(n) ==> !is_named_code(n as int),
    ensures
        baud_of(baud_code(b)) == b,
{
}

/// Character size, parity and stop bits written into a control block read
/// back as themselves.
pub proof fn lemma_line_codes_round_trip(c: CharSize, p: Parity, s: StopBits)
    ensures
        char_size_of(char_size_code(c)) == Some(c),
        parity_of(parity_code(p)) == Some(p),
        stop_bits_of(stop_bits_code(s)) == Some(s),
{
}

/// The flow control bits that a mode leaves behind depend on that mode alone,
/// never on the mode set before; all other bits of the flag word are kept.
pub proof fn lemma_flow_no_leak(f1: u32, f2: u32, m: FlowControl)
    ensures
        with_flow(f1, m) & (HARDWARE_FLOW_BITS | SOFTWARE_FLOW_BITS) == with_flow(f2, m) & (
        HARDWARE_FLOW_BITS | SOFTWARE_FLOW_BITS),
        with_flow(f1, m) & !(HARDWARE_FLOW_BITS | SOFTWARE_FLOW_BITS) == f1 & !(
        HARDWARE_FLOW_BITS | SOFTWARE_FLOW_BITS),
{
    assert(HARDWARE_FLOW_BITS | SOFTWARE_FLOW_BITS == 0x3304u32) by (bit_vector);
    assert(F_OUTX | F_INX == 0x0300u32) by (bit_vector);
    assert(F_OUTX_CTS_FLOW | F_RTS_CONTROL == 0x3004u32) by (bit_vector);
    assert((f1 & !0x3304u32) & 0x3304u32 == (f2 & !0x3304u32) & 0x3304u32) by (bit_vector);
    assert(((f1 & !0x3304u32) | 0x0300u32) & 0x3304u32 == ((f2 & !0x3304u32) | 0x0300u32)
        & 0x3304u32) by (bit_vector);
    assert(((f1 & !0x3304u32) | 0x3004u32) & 0x3304u32 == ((f2 & !0x3304u32) | 0x3004u32)
        & 0x3304u32) by (bit_vector);
    assert((f1 & !0x3304u32) & !0x3304u32 == f1 & !0x3304u32) by (bit_vector);
    assert(((f1 & !0x3304u32) | 0x0300u32) & !0x3304u32 == f1 & !0x3304u32) by (bit_vector);
    assert(((f1 & !0x3304u32) | 0x3004u32) & !0x3304u32 == f1 & !0x3304u32) by (bit_vector);
}

/// Setting hardware, then software, then no flow control: after each step the
/// mode reads back as exactly the one just set.
pub proof fn lemma_flow_sequence(flags: u32)
    ensures
        flow_of(with_flow(flags, FlowControl::FlowHardware)) == FlowControl::FlowHardware,
        flow_of(with_flow(with_flow(flags, FlowControl::FlowHardware), FlowControl::FlowSoftware))
            == FlowControl::FlowSoftware,
        flow_of(
            with_flow(
                with_flow(with_flow(flags, FlowControl::FlowHardware), FlowControl::FlowSoftware),
                FlowControl::FlowNone,
            ),
        ) == FlowControl::FlowNone,
{
    let h = with_flow(flags, FlowControl::FlowHardware);
    let s = with_flow(h, FlowControl::FlowSoftware);
    lemma_flow_round_trip(flags, FlowControl::FlowHardware);
    lemma_flow_round_trip(h, FlowControl::FlowSoftware);
    lemma_flow_round_trip(s, FlowControl::FlowNone);
}

/// Writing a flow control mode sets that mode's whole bit group and clears
/// the other group, whatever the flag word held before.
pub proof fn lemma_flow_groups(flags: u32, m: FlowControl)
    ensures
        flow_groups_hold(with_flow(flags, m), m),
{
    assert(HARDWARE_FLOW_BITS | SOFTWARE_FLOW_BITS == 0x3304u32) by (bit_vector);
    assert(F_OUTX | F_INX == 0x0300u32) by (bit_vector);
    assert(F_OUTX_CTS_FLOW | F_RTS_CONTROL == 0x3004u32) by (bit_vector);
    assert((flags & !0x3304u32) & 0x3304u32 == 0) by (bit_vector);
    assert(((flags & !0x3304u32) | 0x0300u32) & 0x0300u32 == 0x0300u32) by (bit_vector);
    assert(((flags & !0x3304u32) | 0x0300u32) & 0x3004u32 == 0) by (bit_vector);
    assert(((flags & !0x3304u32) | 0x3004u32) & 0x3004u32 == 0x3004u32) by (bit_vector);
    assert(((flags & !0x3304u32) | 0x3004u32) & 0x0300u32 == 0) by (bit_vector);
}

} // verus!
