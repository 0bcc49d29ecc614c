//! The sensor reading carried by a HibouAir advertisement, and its fixed
//! wire layout.

use vstd::prelude::*;

use crate::codec::DecodeError;

verus! {

/// Number of bytes a reading occupies on the wire.
pub const READING_SIZE: usize = 26;

/// Company identifier that prefixes every reading.
pub const COMPANY_ID: u16 = 0x075B;

/// Beacon kind of the full payload.
pub const FULL_BEACON: u8 = 0x05;

/// The 16-bit value whose low byte is `lo` and whose high byte is `hi`.
pub open spec fn le16(lo: u8, hi: u8) -> u16 {
    (lo as int + 256 * (hi as int)) as u16
}

/// The value `x` with its two bytes exchanged.
pub open spec fn swap16(x: u16) -> u16 {
    ((x as int % 256) * 256 + x as int / 256) as u16
}

/// Exchanging the bytes twice gives the value back, and exchanging them
/// once reads the two bytes in the other order.
pub proof fn lemma_swap16(lo: u8, hi: u8)
    ensures
        swap16(le16(lo, hi)) == le16(hi, lo),
        swap16(swap16(le16(lo, hi))) == le16(lo, hi),
{
}

/// The signed value with the same 16 bits as `x`.
pub open spec fn signed16(x: u16) -> i16 {
    if x < 0x8000 {
        x as i16
    } else {
        (x as int - 0x1_0000) as i16
    }
}

/// How the VOC field of a reading is to be read.
#[derive(Debug, Clone, Copy, PartialEq, Eq, Structural)]
pub enum VocType {
    Old,
    Resistance,
    Ppm,
    Iaq,
}

impl VocType {
    /// The kind that the wire code `code` stands for.
    pub open spec fn spec_from_code(code: u8) -> Option<VocType> {
        if code == 0 {
            Some(VocType::Old)
        } else if code == 1 {
            Some(VocType::Resistance)
        } else if code == 2 {
            Some(VocType::Ppm)
        } else if code == 3 {
            Some(VocType::Iaq)
        } else {
            None
        }
    }

    /// The wire code of this kind.
    pub open spec fn spec_code(self) -> u8 {
        match self {
            VocType::Old => 0,
            VocType::Resistance => 1,
            VocType::Ppm => 2,
            VocType::Iaq => 3,
        }
    }

    /// Maps a wire code to its kind; codes above three have none.
    pub fn from_code(code: u8) -> (r: Option<VocType>)
        ensures
            r == Self::spec_from_code(code),
    {
        match code {
            0 => Some(VocType::Old),
            1 => Some(VocType::Resistance),
            2 => Some(VocType::Ppm),
            3 => Some(VocType::Iaq),
            _ => None,
        }
    }

    /// The wire code of this kind.
    pub fn code(&self) -> (r: u8)
        ensures
            r == self.spec_code(),
            Self::spec_from_code(r) == Some(*self),
    {
        match self {
            VocType::Old => 0,
            VocType::Resistance => 1,
            VocType::Ppm => 2,
            VocType::Iaq => 3,
        }
    }
}

/// The kind of board that sent a reading.
#[derive(Debug, Clone, Copy, PartialEq, Eq, Structural)]
pub enum HibouAirType {
    Unknown,
    TempHumSensor,
    PmSensor,
    Co2Sensor,
    No2OutdoorWifi,
    Co2Battery,
    No2OutdoorLtemNbiot,
    PirSensor,
    Co2Noise,
    DuoMaster,
    DuoSlave,
    Matrix,
}

/// The board kind that the code `value` names, if it names one.
pub open spec fn board_type_of(value: int) -> Option<HibouAirType> {
    if value == 0x00 {
        Some(HibouAirType::Unknown)
    } else if value == 0x02 {
        Some(HibouAirType::TempHumSensor)
    } else if value == 0x03 {
        Some(HibouAirType::PmSensor)
    } else if value == 0x04 {
        Some(HibouAirType::Co2Sensor)
    } else if value == 0x05 {
        Some(HibouAirType::No2OutdoorWifi)
    } else if value == 0x06 {
        Some(HibouAirType::Co2Battery)
    } else if value == 0x07 {
        Some(HibouAirType::No2OutdoorLtemNbiot)
    } else if value == 0x08 {
        Some(HibouAirType::PirSensor)
    } else if value == 0x09 {
        Some(HibouAirType::Co2Noise)
    } else if value == 0x0A {
        Some(HibouAirType::DuoMaster)
    } else if value == 0x0B {
        Some(HibouAirType::DuoSlave)
    } else if value == 0x14 {
        Some(HibouAirType::Matrix)
    } else {
        None
    }
}

/// The name under which a board kind is shown.
pub open spec fn board_type_label(t: HibouAirType) -> Seq<char> {
    match t {
        HibouAirType::PmSensor => "PM"@,
        HibouAirType::Co2Sensor => "CO2"@,
        HibouAirType::TempHumSensor => "Temp/Hum"@,
        HibouAirType::No2OutdoorWifi => "NO2 Outdoor WiFi"@,
        HibouAirType::Co2Battery => "CO2 Battery"@,
        HibouAirType::No2OutdoorLtemNbiot => "NO2 Outdoor LTEM NBIOT"@,
        HibouAirType::PirSensor => "PIR"@,
        HibouAirType::Co2Noise => "CO2 Noise"@,
        HibouAirType::DuoMaster => "Duo Master"@,
        HibouAirType::DuoSlave => "Duo Slave"@,
        HibouAirType::Matrix => "Matrix"@,
        HibouAirType::Unknown => "Unknown"@,
    }
}

impl HibouAirType {
    /// The wire code of this board kind.
    pub open spec fn spec_code(self) -> u8 {
        match self {
            HibouAirType::Unknown => 0x00,
            HibouAirType::TempHumSensor => 0x02,
            HibouAirType::PmSensor => 0x03,
            HibouAirType::Co2Sensor => 0x04,
            HibouAirType::No2OutdoorWifi => 0x05,
            HibouAirType::Co2Battery => 0x06,
            HibouAirType::No2OutdoorLtemNbiot => 0x07,
            HibouAirType::PirSensor => 0x08,
            HibouAirType::Co2Noise => 0x09,
            HibouAirType::DuoMaster => 0x0A,
            HibouAirType::DuoSlave => 0x0B,
            HibouAirType::Matrix => 0x14,
        }
    }

    /// The wire code of this board kind.
    pub fn code(&self) -> (r: u8)
        ensures
            r == self.spec_code(),
            board_type_of(r as int) == Some(*self),
    {
        match self {
            HibouAirType::Unknown => 0x00,
            HibouAirType::TempHumSensor => 0x02,
            HibouAirType::PmSensor => 0x03,
            HibouAirType::Co2Sensor => 0x04,
            HibouAirType::No2OutdoorWifi => 0x05,
            HibouAirType::Co2Battery => 0x06,
            HibouAirType::No2OutdoorLtemNbiot => 0x07,
            HibouAirType::PirSensor => 0x08,
            HibouAirType::Co2Noise => 0x09,
            HibouAirType::DuoMaster => 0x0A,
            HibouAirType::DuoSlave => 0x0B,
            HibouAirType::Matrix => 0x14,
        }
    }
}

impl TryFrom<i64> for HibouAirType {
    type Error = &'static str;

    fn try_from(value: i64) -> (r: Result<Self, &'static str>) {
        match value {
            0x00 => Ok(HibouAirType::Unknown),
            0x02 => Ok(HibouAirType::TempHumSensor),
            0x03 => Ok(HibouAirType::PmSensor),
            0x04 => Ok(HibouAirType::Co2Sensor),
            0x05 => Ok(HibouAirType::No2OutdoorWifi),
            0x06 => Ok(HibouAirType::Co2Battery),
            0x07 => Ok(HibouAirType::No2OutdoorLtemNbiot),
            0x08 => Ok(HibouAirType::PirSensor),
            0x09 => Ok(HibouAirType::Co2Noise),
            0x0A => Ok(HibouAirType::DuoMaster),
            0x0B => Ok(HibouAirType::DuoSlave),
            0x14 => Ok(HibouAirType::Matrix),
            _ => Err("Unkown sensor type"),
        }
    }
}

impl vstd::std_specs::convert::TryFromSpecImpl<i64> for HibouAirType {
    open spec fn obeys_try_from_spec() -> bool {
        true
    }

    open spec fn try_from_spec(value: i64) -> Result<Self, &'static str> {
        match board_type_of(value as int) {
            Some(t) => Ok(t),
            None => Err("Unkown sensor type"),
        }
    }
}

/// The board kind shown for the code `code`: the kind it names, or
/// `Unknown` where it names none.
pub open spec fn board_type_or_unknown(code: u8) -> HibouAirType {
    match board_type_of(code as int) {
        Some(t) => t,
        None => HibouAirType::Unknown,
    }
}

/// The low byte of `x`.
pub open spec fn low_byte(x: u16) -> u8 {
    (x as int % 256) as u8
}

/// The high byte of `x`.
pub open spec fn high_byte(x: u16) -> u8 {
    (x as int / 256) as u8
}

/// One reading of a sensor, as its advertisement carries it.
///
/// The view of a reading is the sequence of the `READING_SIZE` bytes that
/// stand for it on the wire; every field is a function of those bytes.
#[derive(Debug, Clone, Copy, PartialEq)]
pub struct HibouAir {
    mfid: u16,
    beacon_nr: u8,
    board_type: u8,
    board_id: [u8; 3],
    als: u16,
    bar: u16,
    temp: u16,
    hum: u16,
    voc: u16,
    pm1_0: u16,
    pm2_5: u16,
    pm10: u16,
    co2: u16,
    voc_type: u8,
}

impl View for HibouAir {
    type V = Seq<u8>;

    closed spec fn view(&self) -> Seq<u8> {
        seq![
            low_byte(self.mfid),
            high_byte(self.mfid),
            self.beacon_nr,
            self.board_type,
            self.board_id[0],
            self.board_id[1],
            self.board_id[2],
            low_byte(self.als),
            high_byte(self.als),
            low_byte(self.bar),
            high_byte(self.bar),
            low_byte(self.temp),
            high_byte(self.temp),
            low_byte(self.hum),
            high_byte(self.hum),
            low_byte(self.voc),
            high_byte(self.voc),
            low_byte(self.pm1_0),
            high_byte(self.pm1_0),
            low_byte(self.pm2_5),
            high_byte(self.pm2_5),
            low_byte(self.pm10),
            high_byte(self.pm10),
            low_byte(self.co2),
            high_byte(self.co2),
            self.voc_type,
        ]
    }
}

/// Reads the little-endian 16-bit value at `at`.
fn u16_at(data: &[u8], at: usize) -> (r: u16)
    requires
        at + 1 < data@.len(),
    ensures
        r == le16(data@[at as int], data@[at + 1]),
        low_byte(r) == data@[at as int],
        high_byte(r) == data@[at + 1],
{
    let lo: u16 = data[at] as u16;
    let hi: u16 = data[at + 1] as u16;
    lo + 256 * hi
}

impl HibouAir {
    /// Manufacturer identifier: bytes 0 and 1, little-endian.
    pub open spec fn spec_mfid(&self) -> u16 {
        le16(self@[0], self@[1])
    }

    /// Beacon kind: byte 2.
    pub open spec fn spec_beacon_nr(&self) -> u8 {
        self@[2]
    }

    /// Board type code: byte 3.
    pub open spec fn spec_board_type(&self) -> u8 {
        self@[3]
    }

    /// Board identifier: bytes 4 to 6, most significant first.
    pub open spec fn spec_id(&self) -> u32 {
        (self@[4] as int * 0x1_0000 + self@[5] as int * 0x100 + self@[6] as int) as u32
    }

    /// Ambient light: bytes 7 and 8, little-endian.
    pub open spec fn spec_als(&self) -> u16 {
        le16(self@[7], self@[8])
    }

    /// Pressure in tenths of a hectopascal: bytes 9 and 10, little-endian.
    pub open spec fn spec_bar(&self) -> u16 {
        le16(self@[9], self@[10])
    }

    /// Temperature field as stored: bytes 11 and 12, little-endian.
    pub open spec fn spec_temp(&self) -> u16 {
        le16(self@[11], self@[12])
    }

    /// Relative humidity in tenths of a percent: bytes 13 and 14,
    /// little-endian.
    pub open spec fn spec_hum(&self) -> u16 {
        le16(self@[13], self@[14])
    }

    /// VOC field as stored: bytes 15 and 16, little-endian.
    pub open spec fn spec_voc(&self) -> u16 {
        le16(self@[15], self@[16])
    }

    /// PM1.0 in tenths of a microgram per cubic metre: bytes 17 and 18,
    /// little-endian.
    pub open spec fn spec_pm1_0(&self) -> u16 {
        le16(self@[17], self@[18])
    }

    /// PM2.5 in tenths of a microgram per cubic metre: bytes 19 and 20,
    /// little-endian.
    pub open spec fn spec_pm2_5(&self) -> u16 {
        le16(self@[19], self@[20])
    }

    /// PM10 in tenths of a microgram per cubic metre: bytes 21 and 22,
    /// little-endian.
    pub open spec fn spec_pm10(&self) -> u16 {
        le16(self@[21], self@[22])
    }

    /// CO2 field as stored: bytes 23 and 24 read little-endian, which is
    /// the byte-swapped concentration.
    pub open spec fn spec_co2_raw(&self) -> u16 {
        le16(self@[23], self@[24])
    }

    /// VOC kind code: byte 25.
    pub open spec fn spec_voc_type(&self) -> u8 {
        self@[25]
    }

    /// The reading that the `READING_SIZE` bytes `bytes` stand for.
    pub closed spec fn spec_from_bytes(bytes: Seq<u8>) -> HibouAir {
        HibouAir {
            mfid: le16(bytes[0], bytes[1]),
            beacon_nr: bytes[2],
            board_type: bytes[3],
            board_id: [bytes[4], bytes[5], bytes[6]],
            als: le16(bytes[7], bytes[8]),
            bar: le16(bytes[9], bytes[10]),
            temp: le16(bytes[11], bytes[12]),
            hum: le16(bytes[13], bytes[14]),
            voc: le16(bytes[15], bytes[16]),
            pm1_0: le16(bytes[17], bytes[18]),
            pm2_5: le16(bytes[19], bytes[20]),
            pm10: le16(bytes[21], bytes[22]),
            co2: le16(bytes[23], bytes[24]),
            voc_type: bytes[25],
        }
    }

    /// The reading that stands for `READING_SIZE` bytes has those bytes as
    /// its view.
    pub proof fn lemma_from_bytes(bytes: Seq<u8>)
        requires
            bytes.len() == READING_SIZE,
        ensures
            Self::spec_from_bytes(bytes)@ == bytes,
    {
        assert(Self::spec_from_bytes(bytes)@ =~= bytes);
    }

    /// A reading is the reading that its own bytes stand for.
    pub proof fn lemma_from_view(self)
        ensures
            Self::spec_from_bytes(self@) == self,
    {
        self.lemma_view_len();
        Self::lemma_from_bytes(self@);
        Self::lemma_view_injective(Self::spec_from_bytes(self@), self);
    }

    /// The view of a reading always has `READING_SIZE` bytes.
    pub proof fn lemma_view_len(&self)
        ensures
            self@.len() == READING_SIZE,
    {
    }

    /// Two readings with the same bytes are the same reading.
    pub proof fn lemma_view_injective(a: HibouAir, b: HibouAir)
        requires
            a@ == b@,
        ensures
            a == b,
    {
        assert(a@[0] == b@[0] && a@[1] == b@[1]);
        assert(a@[2] == b@[2] && a@[3] == b@[3]);
        assert(a@[4] == b@[4] && a@[5] == b@[5] && a@[6] == b@[6]);
        assert(a@[7] == b@[7] && a@[8] == b@[8]);
        assert(a@[9] == b@[9] && a@[10] == b@[10]);
        assert(a@[11] == b@[11] && a@[12] == b@[12]);
        assert(a@[13] == b@[13] && a@[14] == b@[14]);
        assert(a@[15] == b@[15] && a@[16] == b@[16]);
        assert(a@[17] == b@[17] && a@[18] == b@[18]);
        assert(a@[19] == b@[19] && a@[20] == b@[20]);
        assert(a@[21] == b@[21] && a@[22] == b@[22]);
        assert(a@[23] == b@[23] && a@[24] == b@[24]);
        assert(a@[25] == b@[25]);
        assert(a.board_id =~= b.board_id);
    }

    /// Decodes a reading from the first `READING_SIZE` bytes of `data`,
    /// which start at the company identifier.
    ///
    /// Fails with `TooShort`, and only then, when `data` has fewer bytes.
    pub fn from_ble(data: &[u8]) -> (r: Result<HibouAir, DecodeError>)
        ensures
            data@.len() < READING_SIZE ==> r == Err::<HibouAir, DecodeError>(
                DecodeError::TooShort,
            ),
            data@.len() >= READING_SIZE ==> r is Ok && r->Ok_0@ == data@.subrange(
                0,
                READING_SIZE as int,
            ) && r->Ok_0 == Self::spec_from_bytes(data@.subrange(0, READING_SIZE as int)),
    {
        if data.len() < READING_SIZE {
            return Err(DecodeError::TooShort);
        }
        let reading = HibouAir {
            mfid: u16_at(data, 0),
            beacon_nr: data[2],
            board_type: data[3],
            board_id: [data[4], data[5], data[6]],
            als: u16_at(data, 7),
            bar: u16_at(data, 9),
            temp: u16_at(data, 11),
            hum: u16_at(data, 13),
            voc: u16_at(data, 15),
            pm1_0: u16_at(data, 17),
            pm2_5: u16_at(data, 19),
            pm10: u16_at(data, 21),
            co2: u16_at(data, 23),
            voc_type: data[25],
        };
        assert(reading@ =~= data@.subrange(0, READING_SIZE as int));
        proof {
            reading.lemma_from_view();
        }
        Ok(reading)
    }

    /// The manufacturer identifier.
    pub fn get_mfid(&self) -> (r: u16)
        ensures
            r == self.spec_mfid(),
    {
        self.mfid
    }

    /// The beacon kind.
    pub fn get_beacon_nr(&self) -> (r: u8)
        ensures
            r == self.spec_beacon_nr(),
    {
        self.beacon_nr
    }

    /// The board kind; a code that names none gives `Unknown`.
    pub fn get_board_type(&self) -> (r: HibouAirType)
        ensures
            r == board_type_or_unknown(self.spec_board_type()),
    {
        match HibouAirType::try_from(self.board_type as i64) {
            Ok(t) => t,
            Err(_) => HibouAirType::Unknown,
        }
    }

    /// The board identifier.
    pub fn get_id(&self) -> (r: u32)
        ensures
            r == self.spec_id(),
            r <= 0xFF_FFFF,
    {
        let b0: u32 = self.board_id[0] as u32;
        let b1: u32 = self.board_id[1] as u32;
        let b2: u32 = self.board_id[2] as u32;
        b0 * 0x1_0000 + b1 * 0x100 + b2
    }

    /// The ambient light level.
    pub fn get_als(&self) -> (r: u16)
        ensures
            r == self.spec_als(),
    {
        self.als
    }

    /// The pressure in tenths of a hectopascal.
    pub fn get_bar_tenths(&self) -> (r: u16)
        ensures
            r == self.spec_bar(),
    {
        self.bar
    }

    /// The temperature in tenths of a degree Celsius: the stored field read
    /// as a signed number.
    pub fn get_temp_tenths(&self) -> (r: i16)
        ensures
            r == signed16(self.spec_temp()),
    {
        if self.temp < 0x8000 {
            self.temp as i16
        } else {
            (self.temp as i32 - 0x1_0000) as i16
        }
    }

    /// The relative humidity in tenths of a percent.
    pub fn get_hum_tenths(&self) -> (r: u16)
        ensures
            r == self.spec_hum(),
    {
        self.hum
    }

    /// The CO2 concentration in parts per million: the stored field with
    /// its bytes exchanged.
    pub fn get_co2(&self) -> (r: u16)
        ensures
            r == swap16(self.spec_co2_raw()),
            r == self@[23] as int * 256 + self@[24] as int,
    {
        (self.co2 % 256) * 256 + self.co2 / 256
    }

    /// The board type code as stored.
    pub fn get_board_type_code(&self) -> (r: u8)
        ensures
            r == self.spec_board_type(),
    {
        self.board_type
    }

    /// The temperature field as stored.
    pub fn get_temp_raw(&self) -> (r: u16)
        ensures
            r == self.spec_temp(),
    {
        self.temp
    }

    /// The CO2 field as stored.
    pub fn get_co2_raw(&self) -> (r: u16)
        ensures
            r == self.spec_co2_raw(),
    {
        self.co2
    }

    /// The VOC field as stored.
    pub fn get_voc_raw(&self) -> (r: u16)
        ensures
            r == self.spec_voc(),
    {
        self.voc
    }

    /// The bytes of the board identifier, most significant first.
    pub(crate) fn id_bytes(&self) -> (r: [u8; 3])
        ensures
            r[0] == self@[4],
            r[1] == self@[5],
            r[2] == self@[6],
    {
        self.board_id
    }

    /// The VOC level in hundredths: the stored field where the kind is
    /// parts per million, a hundred times the stored field otherwise.
    pub fn get_voc_hundredths(&self) -> (r: u32)
        ensures
            r == voc_hundredths(self.spec_voc(), self.spec_voc_type()),
    {
        if self.voc_type == 2 {
            self.voc as u32
        } else {
            self.voc as u32 * 100
        }
    }

    /// The VOC kind code.
    pub fn get_voc_type(&self) -> (r: u8)
        ensures
            r == self.spec_voc_type(),
    {
        self.voc_type
    }

    /// PM1.0 in tenths of a microgram per cubic metre.
    pub fn get_pm1_0_tenths(&self) -> (r: u16)
        ensures
            r == self.spec_pm1_0(),
    {
        self.pm1_0
    }

    /// PM2.5 in tenths of a microgram per cubic metre.
    pub fn get_pm2_5_tenths(&self) -> (r: u16)
        ensures
            r == self.spec_pm2_5(),
    {
        self.pm2_5
    }

    /// PM10 in tenths of a microgram per cubic metre.
    pub fn get_pm10_tenths(&self) -> (r: u16)
        ensures
            r == self.spec_pm10(),
    {
        self.pm10
    }
}

/// The VOC level in hundredths for a stored field `voc` of kind `kind`.
pub open spec fn voc_hundredths(voc: u16, kind: u8) -> u32 {
    if kind == 2 {
        voc as u32
    } else {
        (voc as int * 100) as u32
    }
}

} // verus!
