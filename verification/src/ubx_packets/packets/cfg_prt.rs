//! The UART mode word of CFG-PRT: character length, parity and stop bits.

use vstd::prelude::*;

use crate::ubx_packets::packets::cfg::CfgPrtUartRef;

verus! {

/// Number of data bits per character (bits 6 and 7 of the mode word).
#[derive(Debug, Clone, Copy, PartialEq, Eq, Structural)]
pub enum DataBits {
    Seven,
    Eight,
}

impl DataBits {
    /// The mode word bits of this setting.
    pub open spec fn spec_into_raw(self) -> u32 {
        match self {
            DataBits::Seven => 0x80,
            DataBits::Eight => 0xC0,
        }
    }

    /// The mode word bits of this setting.
    pub fn into_raw(self) -> (r: u32)
        ensures
            r == self.spec_into_raw(),
    {
        match self {
            DataBits::Seven => 0x80,
            DataBits::Eight => 0xC0,
        }
    }

    /// Whether the mode word holds a supported character length (five and
    /// six data bits are not).
    pub open spec fn spec_is_supported(mode: u32) -> bool {
        (mode / 64) % 4 >= 2
    }

    /// The character length of a mode word.
    pub open spec fn spec_from(mode: u32) -> DataBits {
        if (mode / 64) % 4 == 2 {
            DataBits::Seven
        } else {
            DataBits::Eight
        }
    }

    /// The character length of a mode word, which must be seven or eight
    /// bits.
    pub fn from(mode: u32) -> (r: Self)
        requires
            Self::spec_is_supported(mode),
        ensures
            r == Self::spec_from(mode),
    {
        let bits = (mode / 64) % 4;
        if bits == 2 {
            DataBits::Seven
        } else {
            DataBits::Eight
        }
    }
}

/// Parity (bits 9 to 11 of the mode word).
#[derive(Debug, Clone, Copy, PartialEq, Eq, Structural)]
pub enum Parity {
    Even,
    Odd,
    /// No parity.
    NoParity,
}

impl Parity {
    /// The mode word bits of this setting.
    pub open spec fn spec_into_raw(self) -> u32 {
        match self {
            Parity::Even => 0,
            Parity::Odd => 0x200,
            Parity::NoParity => 0x800,
        }
    }

    /// The mode word bits of this setting.
    pub fn into_raw(self) -> (r: u32)
        ensures
            r == self.spec_into_raw(),
    {
        match self {
            Parity::Even => 0,
            Parity::Odd => 0x200,
            Parity::NoParity => 0x800,
        }
    }

    /// Whether the mode word holds a parity setting that is not reserved.
    pub open spec fn spec_is_supported(mode: u32) -> bool {
        let bits = (mode / 512) % 8;
        bits == 0 || bits == 1 || bits == 4 || bits == 5
    }

    /// The parity of a mode word.
    pub open spec fn spec_from(mode: u32) -> Parity {
        let bits = (mode / 512) % 8;
        if bits == 0 {
            Parity::Even
        } else if bits == 1 {
            Parity::Odd
        } else {
            Parity::NoParity
        }
    }

    /// The parity of a mode word, whose parity bits must not be reserved.
    pub fn from(mode: u32) -> (r: Self)
        requires
            Self::spec_is_supported(mode),
        ensures
            r == Self::spec_from(mode),
    {
        let bits = (mode / 512) % 8;
        if bits == 0 {
            Parity::Even
        } else if bits == 1 {
            Parity::Odd
        } else {
            Parity::NoParity
        }
    }
}

/// Number of stop bits (bits 12 and 13 of the mode word).
#[derive(Debug, Clone, Copy, PartialEq, Eq, Structural)]
pub enum StopBits {
    One,
    OneHalf,
    Two,
    Half,
}

impl StopBits {
    /// The mode word bits of this setting.
    pub open spec fn spec_into_raw(self) -> u32 {
        match self {
            StopBits::One => 0,
            StopBits::OneHalf => 0x1000,
            StopBits::Two => 0x2000,
            StopBits::Half => 0x3000,
        }
    }

    /// The mode word bits of this setting.
    pub fn into_raw(self) -> (r: u32)
        ensures
            r == self.spec_into_raw(),
    {
        match self {
            StopBits::One => 0,
            StopBits::OneHalf => 0x1000,
            StopBits::Two => 0x2000,
            StopBits::Half => 0x3000,
        }
    }

    /// The stop bits of a mode word.
    pub open spec fn spec_from(mode: u32) -> StopBits {
        let bits = (mode / 4096) % 4;
        if bits == 0 {
            StopBits::One
        } else if bits == 1 {
            StopBits::OneHalf
        } else if bits == 2 {
            StopBits::Two
        } else {
            StopBits::Half
        }
    }

    /// The stop bits of a mode word.
    pub fn from(mode: u32) -> (r: Self)
        ensures
            r == Self::spec_from(mode),
    {
        let bits = (mode / 4096) % 4;
        if bits == 0 {
            StopBits::One
        } else if bits == 1 {
            StopBits::OneHalf
        } else if bits == 2 {
            StopBits::Two
        } else {
            StopBits::Half
        }
    }
}

/// Character framing of a UART port.
#[derive(Debug, Clone, Copy, PartialEq, Eq, Structural)]
pub struct UartMode {
    pub data_bits: DataBits,
    pub parity: Parity,
    pub stop_bits: StopBits,
}

impl UartMode {
    /// A framing of the given parts.
    pub fn new(data_bits: DataBits, parity: Parity, stop_bits: StopBits) -> (r: Self)
        ensures
            r == (UartMode { data_bits, parity, stop_bits }),
    {
        Self { data_bits, parity, stop_bits }
    }

    /// The mode word of this framing.
    pub open spec fn spec_into_raw(self) -> u32 {
        (self.data_bits.spec_into_raw() + self.parity.spec_into_raw() + self.stop_bits.spec_into_raw()) as u32
    }

    /// The mode word of this framing: the bits of its three parts.
    pub fn into_raw(self) -> (r: u32)
        ensures
            r == self.spec_into_raw(),
    {
        self.data_bits.into_raw() + self.parity.into_raw() + self.stop_bits.into_raw()
    }

    /// Whether a mode word holds a framing this type can express.
    pub open spec fn spec_is_supported(mode: u32) -> bool {
        DataBits::spec_is_supported(mode) && Parity::spec_is_supported(mode)
    }

    /// The framing of a mode word.
    pub open spec fn spec_from(mode: u32) -> UartMode {
        UartMode {
            data_bits: DataBits::spec_from(mode),
            parity: Parity::spec_from(mode),
            stop_bits: StopBits::spec_from(mode),
        }
    }

    /// The framing of a mode word, which must hold a supported character
    /// length and parity.
    pub fn from(mode: u32) -> (r: Self)
        requires
            Self::spec_is_supported(mode),
        ensures
            r == Self::spec_from(mode),
    {
        let data_bits = DataBits::from(mode);
        let parity = Parity::from(mode);
        let stop_bits = StopBits::from(mode);
        Self { data_bits, parity, stop_bits }
    }
}

/// The mode word of a framing is read back as that framing.
pub proof fn lemma_uart_mode_roundtrip(m: UartMode)
    ensures
        UartMode::spec_is_supported(m.spec_into_raw()),
        UartMode::spec_from(m.spec_into_raw()) == m,
{
}

/// The bits of each framing setting in the mode word, as the u-blox protocol
/// lays them out: character length in bits 6-7 (2: seven, 3: eight data
/// bits), parity in bits 9-11 (0: even, 1: odd, 4 or 5: none), stop bits in
/// bits 12-13 (0: one, 1: one and a half, 2: two, 3: half).
pub proof fn lemma_uart_mode_codes(mode: u32)
    ensures
        DataBits::Seven.spec_into_raw() == 0x80,
        DataBits::Eight.spec_into_raw() == 0xC0,
        Parity::Even.spec_into_raw() == 0,
        Parity::Odd.spec_into_raw() == 0x200,
        Parity::NoParity.spec_into_raw() == 0x800,
        StopBits::One.spec_into_raw() == 0,
        StopBits::OneHalf.spec_into_raw() == 0x1000,
        StopBits::Two.spec_into_raw() == 0x2000,
        StopBits::Half.spec_into_raw() == 0x3000,
        (mode / 64) % 4 == 2 ==> DataBits::spec_from(mode) == DataBits::Seven,
        (mode / 64) % 4 == 3 ==> DataBits::spec_from(mode) == DataBits::Eight,
        (mode / 64) % 4 < 2 ==> !DataBits::spec_is_supported(mode),
        (mode / 512) % 8 == 0 ==> Parity::spec_from(mode) == Parity::Even,
        (mode / 512) % 8 == 1 ==> Parity::spec_from(mode) == Parity::Odd,
        (mode / 512) % 8 == 4 || (mode / 512) % 8 == 5 ==> Parity::spec_from(mode) == Parity::NoParity,
        Parity::spec_is_supported(mode) <==> ((mode / 512) % 8 == 0 || (mode / 512) % 8 == 1
            || (mode / 512) % 8 == 4 || (mode / 512) % 8 == 5),
        (mode / 4096) % 4 == 0 ==> StopBits::spec_from(mode) == StopBits::One,
        (mode / 4096) % 4 == 1 ==> StopBits::spec_from(mode) == StopBits::OneHalf,
        (mode / 4096) % 4 == 2 ==> StopBits::spec_from(mode) == StopBits::Two,
        (mode / 4096) % 4 == 3 ==> StopBits::spec_from(mode) == StopBits::Half,
{
}

impl<'a> CfgPrtUartRef<'a> {
    /// The character framing of the port, when the mode word holds a
    /// supported one.
    pub fn uart_mode(&self) -> (r: Option<UartMode>)
        requires
            Self::spec_validate(self.0@) is Ok,
        ensures
            ({
                let m = crate::ubx_packets::bytes_le::le_u32(self.0@, 4);
                r == (if UartMode::spec_is_supported(m) {
                    Some(UartMode::spec_from(m))
                } else {
                    None::<UartMode>
                })
            }),
    {
        let m = self.mode();
        let db = (m / 64) % 4;
        let p = (m / 512) % 8;
        if db >= 2 && (p == 0 || p == 1 || p == 4 || p == 5) {
            Some(UartMode::from(m))
        } else {
            None
        }
    }
}

} // verus!
