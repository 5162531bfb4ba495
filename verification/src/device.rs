//! Device roles and configured device records.
//!
//! A record holds the role, the 6-byte broadcast address, the 16-byte
//! payload key and an optional numeric pin. A record whose address is
//! all zero stands for "unconfigured"; such a record is excluded from
//! address lookups. Records persist in a fixed 28-byte frame defined
//! and checked here.

use vstd::prelude::*;

verus! {

/// A 6-byte broadcast address.
pub type Mac = [u8; 6];

/// A 16-byte payload decryption key.
pub type DeviceKey = [u8; 16];

/// The three monitored device roles.
#[derive(Clone, Copy, PartialEq, Eq, Structural, Debug)]
pub enum DeviceType {
    Inverter,
    Mppt,
    Bmv,
}

impl DeviceType {
    /// The short name under which a record of this role persists.
    pub fn storage_key(&self) -> (r: &'static str)
        ensures
            self is Inverter ==> r@ == "inv"@,
            self is Mppt ==> r@ == "mppt"@,
            self is Bmv ==> r@ == "bmv"@,
    {
        match self {
            DeviceType::Inverter => "inv",
            DeviceType::Mppt => "mppt",
            DeviceType::Bmv => "bmv",
        }
    }
}

/// The role byte used in the persistence frame.
pub open spec fn spec_type_code(t: DeviceType) -> u8 {
    match t {
        DeviceType::Inverter => 0,
        DeviceType::Mppt => 1,
        DeviceType::Bmv => 2,
    }
}

/// True when `m` is the all-zero sentinel address of an unconfigured record.
pub open spec fn spec_is_zero_mac(m: Mac) -> bool {
    forall|i: int| 0 <= i < 6 ==> m@[i] == 0
}

/// Whether `m` is the all-zero sentinel address.
pub fn is_zero_mac(m: &Mac) -> (r: bool)
    ensures
        r == spec_is_zero_mac(*m),
{
    let r = m[0] == 0 && m[1] == 0 && m[2] == 0 && m[3] == 0 && m[4] == 0 && m[5] == 0;
    proof {
        if r {
            assert forall|i: int| 0 <= i < 6 implies m@[i] == 0 by {
                if i == 0 {
                } else if i == 1 {
                } else if i == 2 {
                } else if i == 3 {
                } else if i == 4 {
                } else {
                    assert(i == 5);
                }
            }
        }
    }
    r
}

/// An address read as one number, the index key of the reverse index.
pub open spec fn spec_mac_u64(m: Mac) -> int {
    m@[0] + 0x100 * m@[1] + 0x1_0000 * m@[2] + 0x100_0000 * m@[3] + 0x1_0000_0000 * m@[4]
        + 0x100_0000_0000 * m@[5]
}

/// The reverse-index key of an address.
pub fn mac_u64(m: &Mac) -> (r: u64)
    ensures
        r == spec_mac_u64(*m),
        r == spec_mac_key(*m),
{
    m[0] as u64 + 0x100 * (m[1] as u64) + 0x1_0000 * (m[2] as u64) + 0x100_0000 * (m[3] as u64)
        + 0x1_0000_0000 * (m[4] as u64) + 0x100_0000_0000 * (m[5] as u64)
}

/// The reverse-index key of an address, as the index stores it.
pub open spec fn spec_mac_key(m: Mac) -> u64 {
    spec_mac_u64(m) as u64
}

/// Two distinct addresses never share a reverse-index key.
pub proof fn lemma_mac_key_injective(a: Mac, b: Mac)
    requires
        spec_mac_key(a) == spec_mac_key(b),
    ensures
        a == b,
{
    assert(0 <= spec_mac_u64(a) < 0x1_0000_0000_0000);
    assert(0 <= spec_mac_u64(b) < 0x1_0000_0000_0000);
    lemma_mac_u64_injective(a, b);
}

/// Two distinct addresses never pack to the same number.
pub proof fn lemma_mac_u64_injective(a: Mac, b: Mac)
    requires
        spec_mac_u64(a) == spec_mac_u64(b),
    ensures
        a == b,
{
    lemma_mac_u64_digits(a);
    lemma_mac_u64_digits(b);
    assert(a =~= b);
}

/// Each byte of an address is recovered from its reverse-index key by
/// division and remainder, so the key determines the address.
proof fn lemma_mac_u64_digits(m: Mac)
    ensures
        m@[0] == spec_mac_u64(m) % 0x100,
        m@[1] == spec_mac_u64(m) / 0x100 % 0x100,
        m@[2] == spec_mac_u64(m) / 0x1_0000 % 0x100,
        m@[3] == spec_mac_u64(m) / 0x100_0000 % 0x100,
        m@[4] == spec_mac_u64(m) / 0x1_0000_0000 % 0x100,
        m@[5] == spec_mac_u64(m) / 0x100_0000_0000,
{
    let v = spec_mac_u64(m);
    let b0 = m@[0] as int;
    let b1 = m@[1] as int;
    let b2 = m@[2] as int;
    let b3 = m@[3] as int;
    let b4 = m@[4] as int;
    let b5 = m@[5] as int;
    let q1 = b1 + 0x100 * b2 + 0x1_0000 * b3 + 0x100_0000 * b4 + 0x1_0000_0000 * b5;
    vstd::arithmetic::div_mod::lemma_fundamental_div_mod_converse(v, 0x100, q1, b0);
    let q2 = b2 + 0x100 * b3 + 0x1_0000 * b4 + 0x100_0000 * b5;
    vstd::arithmetic::div_mod::lemma_fundamental_div_mod_converse(q1, 0x100, q2, b1);
    let q3 = b3 + 0x100 * b4 + 0x1_0000 * b5;
    vstd::arithmetic::div_mod::lemma_fundamental_div_mod_converse(q2, 0x100, q3, b2);
    let q4 = b4 + 0x100 * b5;
    vstd::arithmetic::div_mod::lemma_fundamental_div_mod_converse(q3, 0x100, q4, b3);
    vstd::arithmetic::div_mod::lemma_fundamental_div_mod_converse(q4, 0x100, b5, b4);
    vstd::arithmetic::div_mod::lemma_div_denominator(v, 0x100, 0x100);
    vstd::arithmetic::div_mod::lemma_div_denominator(v, 0x1_0000, 0x100);
    vstd::arithmetic::div_mod::lemma_div_denominator(v, 0x100_0000, 0x100);
    vstd::arithmetic::div_mod::lemma_div_denominator(v, 0x1_0000_0000, 0x100);
}

/// Whether two byte slices hold the same bytes.
pub fn bytes_eq(a: &[u8], b: &[u8]) -> (r: bool)
    ensures
        r == (a@ =~= b@),
{
    if a.len() != b.len() {
        return false;
    }
    let mut i: usize = 0;
    while i < a.len()
        invariant
            i <= a@.len(),
            a@.len() == b@.len(),
            forall|j: int| 0 <= j < i ==> a@[j] == b@[j],
        decreases a@.len() - i,
    {
        if a[i] != b[i] {
            return false;
        }
        i = i + 1;
    }
    true
}

/// A configured device record.
#[derive(Clone, Copy, Debug)]
pub struct Device {
    pub device_type: DeviceType,
    pub addr: Mac,
    pub key: DeviceKey,
    pub pin: Option<u32>,
}

impl PartialEq for Device {
    fn eq(&self, other: &Device) -> (r: bool) {
        let types_eq = match (self.device_type, other.device_type) {
            (DeviceType::Inverter, DeviceType::Inverter) => true,
            (DeviceType::Mppt, DeviceType::Mppt) => true,
            (DeviceType::Bmv, DeviceType::Bmv) => true,
            _ => false,
        };
        let pins_eq = match (self.pin, other.pin) {
            (Option::None, Option::None) => true,
            (Option::Some(a), Option::Some(b)) => a == b,
            _ => false,
        };
        let r = types_eq && pins_eq && bytes_eq(self.addr.as_slice(), other.addr.as_slice())
            && bytes_eq(self.key.as_slice(), other.key.as_slice());
        proof {
            if r {
                assert(self.addr =~= other.addr);
                assert(self.key =~= other.key);
            }
        }
        r
    }
}

impl vstd::std_specs::cmp::PartialEqSpecImpl for Device {
    open spec fn obeys_eq_spec() -> bool {
        true
    }

    open spec fn eq_spec(&self, other: &Device) -> bool {
        *self == *other
    }
}

impl Device {
    /// A record with the given fields.
    pub fn new(device: DeviceType, addr: Mac, key: DeviceKey, pin: Option<u32>) -> (r: Device)
        ensures
            r == (Device { device_type: device, addr, key, pin }),
    {
        Device { device_type: device, addr, key, pin }
    }

    /// Whether the record is configured, that is, has a non-zero address.
    pub fn is_valid(&self) -> (r: bool)
        ensures
            r == !spec_is_zero_mac(self.addr),
    {
        !is_zero_mac(&self.addr)
    }

    pub fn device_type(&self) -> (r: DeviceType)
        ensures
            r == self.device_type,
    {
        self.device_type
    }

    pub fn addr(&self) -> (r: &Mac)
        ensures
            r == self.addr,
    {
        &self.addr
    }

    pub fn key(&self) -> (r: &DeviceKey)
        ensures
            r == self.key,
    {
        &self.key
    }

    pub fn pin(&self) -> (r: Option<u32>)
        ensures
            r == self.pin,
    {
        self.pin
    }

    /// The unconfigured placeholder record of a role: zero address,
    /// zero key, no pin.
    pub fn empty(device: DeviceType) -> (r: Device)
        ensures
            r.device_type == device,
            spec_is_zero_mac(r.addr),
            forall|i: int| 0 <= i < 16 ==> r.key@[i] == 0,
            r.pin is None,
    {
        let key: DeviceKey = [0u8; 16];
        proof {
            assert(forall|i: int| 0 <= i < 16 ==> key@[i] == 0);
        }
        Device { device_type: device, addr: [0u8; 6], key, pin: Option::None }
    }
}

/// The length of a persisted record frame.
pub const FRAME_LEN: usize = 28;

/// How a byte sequence frames a record: one role byte, the six address
/// bytes, the sixteen key bytes, a pin-present flag, and the pin in
/// four little-endian bytes (zero when no pin is set).
pub open spec fn spec_device_frame(s: Seq<u8>, d: Device) -> bool {
    &&& s.len() == FRAME_LEN
    &&& s[0] == spec_type_code(d.device_type)
    &&& forall|i: int| 0 <= i < 6 ==> s[1 + i] == d.addr@[i]
    &&& forall|i: int| 0 <= i < 16 ==> s[7 + i] == d.key@[i]
    &&& match d.pin {
        Option::None => s[23] == 0 && s[24] == 0 && s[25] == 0 && s[26] == 0 && s[27] == 0,
        Option::Some(p) => s[23] == 1 && p == s[24] + 0x100 * s[25] + 0x1_0000 * s[26]
            + 0x100_0000 * s[27],
    }
}

/// Whether a byte sequence is a well-formed record frame: the length,
/// the role byte, the pin flag, and zero pin bytes under a clear flag.
pub open spec fn spec_frame_ok(s: Seq<u8>) -> bool {
    &&& s.len() == FRAME_LEN
    &&& (s[0] == 0 || s[0] == 1 || s[0] == 2)
    &&& (s[23] == 0 || s[23] == 1)
    &&& (s[23] == 0 ==> s[24] == 0 && s[25] == 0 && s[26] == 0 && s[27] == 0)
}

/// A frame determines the record: no two distinct records share one.
pub proof fn lemma_frame_unique(s: Seq<u8>, d1: Device, d2: Device)
    requires
        spec_device_frame(s, d1),
        spec_device_frame(s, d2),
    ensures
        d1 == d2,
{
    assert(d1.addr =~= d2.addr);
    assert(d1.key =~= d2.key);
    assert(d1.device_type == d2.device_type);
    assert(d1.pin == d2.pin);
}

/// A well-formed frame underlies every record.
pub proof fn lemma_frame_of_device_ok(s: Seq<u8>, d: Device)
    requires
        spec_device_frame(s, d),
    ensures
        spec_frame_ok(s),
{
}

impl Device {
    /// The persistence frame of this record.
    pub fn encode(&self) -> (r: Vec<u8>)
        ensures
            spec_device_frame(r@, *self),
    {
        let mut out: Vec<u8> = Vec::new();
        let code: u8 = match self.device_type {
            DeviceType::Inverter => 0,
            DeviceType::Mppt => 1,
            DeviceType::Bmv => 2,
        };
        out.push(code);
        let mut i: usize = 0;
        while i < 6
            invariant
                i <= 6,
                out@.len() == 1 + i,
                out@[0] == spec_type_code(self.device_type),
                forall|j: int| 0 <= j < i ==> out@[1 + j] == self.addr@[j],
            decreases 6 - i,
        {
            out.push(self.addr[i]);
            i = i + 1;
        }
        let mut i: usize = 0;
        while i < 16
            invariant
                i <= 16,
                out@.len() == 7 + i,
                out@[0] == spec_type_code(self.device_type),
                forall|j: int| 0 <= j < 6 ==> out@[1 + j] == self.addr@[j],
                forall|j: int| 0 <= j < i ==> out@[7 + j] == self.key@[j],
            decreases 16 - i,
        {
            out.push(self.key[i]);
            i = i + 1;
        }
        match self.pin {
            Option::None => {
                out.push(0);
                out.push(0);
                out.push(0);
                out.push(0);
                out.push(0);
            },
            Option::Some(p) => {
                out.push(1);
                let b0: u8 = (p % 0x100) as u8;
                let r1: u32 = p / 0x100;
                let b1: u8 = (r1 % 0x100) as u8;
                let r2: u32 = r1 / 0x100;
                let b2: u8 = (r2 % 0x100) as u8;
                let b3: u8 = (r2 / 0x100) as u8;
                out.push(b0);
                out.push(b1);
                out.push(b2);
                out.push(b3);
                proof {
                    assert(p == b0 + 0x100 * r1);
                    assert(r1 == b1 + 0x100 * r2);
                    assert(r2 == b2 + 0x100 * b3);
                }
            },
        }
        out
    }

    /// The record framed by `bytes`, or `None` when `bytes` is no
    /// well-formed frame.
    pub fn decode(bytes: &[u8]) -> (r: Option<Device>)
        ensures
            r is Some <==> spec_frame_ok(bytes@),
            r matches Some(d) ==> spec_device_frame(bytes@, d),
    {
        if bytes.len() != FRAME_LEN {
            return Option::None;
        }
        let device_type = match bytes[0] {
            0 => DeviceType::Inverter,
            1 => DeviceType::Mppt,
            2 => DeviceType::Bmv,
            _ => {
                return Option::None;
            },
        };
        let addr: Mac = [bytes[1], bytes[2], bytes[3], bytes[4], bytes[5], bytes[6]];
        let key: DeviceKey = [
            bytes[7],
            bytes[8],
            bytes[9],
            bytes[10],
            bytes[11],
            bytes[12],
            bytes[13],
            bytes[14],
            bytes[15],
            bytes[16],
            bytes[17],
            bytes[18],
            bytes[19],
            bytes[20],
            bytes[21],
            bytes[22],
        ];
        let pin: Option<u32> = match bytes[23] {
            0 => {
                if bytes[24] != 0 || bytes[25] != 0 || bytes[26] != 0 || bytes[27] != 0 {
                    return Option::None;
                }
                Option::None
            },
            1 => {
                let p: u32 = bytes[24] as u32 + 0x100 * (bytes[25] as u32) + 0x1_0000 * (
                bytes[26] as u32) + 0x100_0000 * (bytes[27] as u32);
                Option::Some(p)
            },
            _ => {
                return Option::None;
            },
        };
        Option::Some(Device { device_type, addr, key, pin })
    }

    /// The key rendered as uppercase hexadecimal, as the display shows it.
    pub fn key_hex(&self) -> (r: String)
        ensures
            r@ == spec_hex_upper(self.key@),
    {
        hex_encode_upper(self.key.as_slice())
    }
}

/// The uppercase hexadecimal digit of a value below sixteen.
pub open spec fn spec_hex_digit(n: int) -> char {
    if n == 0 {
        '0'
    } else if n == 1 {
        '1'
    } else if n == 2 {
        '2'
    } else if n == 3 {
        '3'
    } else if n == 4 {
        '4'
    } else if n == 5 {
        '5'
    } else if n == 6 {
        '6'
    } else if n == 7 {
        '7'
    } else if n == 8 {
        '8'
    } else if n == 9 {
        '9'
    } else if n == 10 {
        'A'
    } else if n == 11 {
        'B'
    } else if n == 12 {
        'C'
    } else if n == 13 {
        'D'
    } else if n == 14 {
        'E'
    } else {
        'F'
    }
}

/// Bytes rendered as uppercase hexadecimal: two digits per byte, high
/// nibble first.
pub open spec fn spec_hex_upper(s: Seq<u8>) -> Seq<char> {
    Seq::new(s.len() * 2, |i: int| if i % 2 == 0 {
        spec_hex_digit((s[i / 2] as int) / 16)
    } else {
        spec_hex_digit((s[i / 2] as int) % 16)
    })
}

/// Relies on hex::encode_upper: each input byte becomes two uppercase
/// hexadecimal digits, high nibble first.
#[verifier::external_body]
fn hex_encode_upper(bytes: &[u8]) -> (r: String)
    ensures
        r@ == spec_hex_upper(bytes@),
{
    hex::encode_upper(bytes)
}

} // verus!
