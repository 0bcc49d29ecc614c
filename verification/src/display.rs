//! The texts under which a reading is shown.

use vstd::prelude::*;
use vstd::string::*;

use crate::reading::{board_type_label, board_type_or_unknown, HibouAir, HibouAirType};
use crate::text::{
    decimal, digit_char, digit_str, hex_upper, is_upper_hex_digit, lemma_hex_upper, push_decimal,
    push_hex_upper,
};

verus! {

/// The unit of a VOC level of kind `kind`; empty where the kind has none.
pub open spec fn voc_unit(kind: u8) -> Seq<char> {
    if kind == 2 {
        "ppm"@
    } else if kind == 3 {
        "IAQ"@
    } else {
        ""@
    }
}

/// A hundred times two to the power of 52: the least numerator, over a
/// hundred, of a quotient whose integer part fills 53 bits.
pub const SCALE_FLOOR: u64 = 450_359_962_737_049_600;

/// `x` doubled until it reaches `SCALE_FLOOR`; zero stays zero.
pub open spec fn scaled(x: nat) -> nat
    decreases
            (if x < SCALE_FLOOR {
                SCALE_FLOOR - x
            } else {
                0
            }),
{
    if 0 < x < SCALE_FLOOR {
        scaled(2 * x)
    } else {
        x
    }
}

/// Whether the binary64 number nearest to `voc / 100` lies above it.
///
/// With the numerator scaled so that the quotient has 53 bits before the
/// point, the quotient is rounded up exactly where the remainder of the
/// division by a hundred is more than half of a hundred.
pub open spec fn quotient_rounds_up(voc: u16) -> bool {
    scaled(voc as nat) % 100 > 50
}

/// The tenths in `voc / 100` as binary floating point shows them to one
/// decimal place.
///
/// Where the hundredths of `voc / 100` are not five, the nearest tenth is
/// taken. Where they are five and `voc / 100` is a binary64 number (a
/// multiple of a quarter), the even tenth is taken. Where they are five
/// and it is not, the tenth goes the way the nearest binary64 number lies.
pub open spec fn ppm_tenths(voc: u16) -> nat {
    let down = (voc / 10) as nat;
    let last = voc % 10;
    if last < 5 {
        down
    } else if last > 5 {
        down + 1
    } else if voc % 50 == 25 {
        if down % 2 == 0 {
            down
        } else {
            down + 1
        }
    } else if quotient_rounds_up(voc) {
        down + 1
    } else {
        down
    }
}

/// The tenths shown are a nearest tenth of `voc / 100`: they differ from
/// it by half a tenth at most.
pub proof fn lemma_ppm_tenths_nearest(voc: u16)
    ensures
        10 * ppm_tenths(voc) - 5 <= voc <= 10 * ppm_tenths(voc) + 5,
{
}

/// The text of a VOC level: for parts per million, the stored field
/// divided by a hundred, to one decimal place; for the air quality index,
/// the stored field with one decimal place; each followed by its unit.
/// Other kinds have no text.
pub open spec fn voc_view(voc: u16, kind: u8) -> Seq<char> {
    if kind == 2 {
        decimal(ppm_tenths(voc) / 10) + seq!['.', digit_char((ppm_tenths(voc) % 10) as int)]
            + " ppm"@
    } else if kind == 3 {
        decimal(voc as nat) + ".0 IAQ"@
    } else {
        ""@
    }
}

/// Whether the binary64 number nearest to `voc / 100` lies above it.
fn rounds_up(voc: u16) -> (r: bool)
    ensures
        r == quotient_rounds_up(voc),
{
    let mut x: u64 = voc as u64;
    while 0 < x && x < SCALE_FLOOR
        invariant
            x < 2 * SCALE_FLOOR,
            scaled(x as nat) == scaled(voc as nat),
        decreases
                (if x < SCALE_FLOOR {
                    SCALE_FLOOR - x
                } else {
                    0
                }),
    {
        x = 2 * x;
    }
    x % 100 > 50
}

/// The tenths in `voc / 100` as shown to one decimal place.
fn tenths_shown(voc: u16) -> (r: u16)
    ensures
        r == ppm_tenths(voc),
        r <= 6554,
{
    let down: u16 = voc / 10;
    let last: u16 = voc % 10;
    if last < 5 {
        down
    } else if last > 5 {
        down + 1
    } else if voc % 50 == 25 {
        if down % 2 == 0 {
            down
        } else {
            down + 1
        }
    } else if rounds_up(voc) {
        down + 1
    } else {
        down
    }
}

/// The text of a reading: every stored field by name, the board
/// identifier as three bytes in hexadecimal.
pub open spec fn display_text(reading: HibouAir) -> Seq<char> {
    "HibouAir(mfid: "@ + decimal(reading.spec_mfid() as nat) + ", beacon_nr: "@ + decimal(
        reading.spec_beacon_nr() as nat,
    ) + ", board_type: "@ + decimal(reading.spec_board_type() as nat) + ", board_id: ["@
        + hex_upper(reading@[4] as nat, 2) + ", "@ + hex_upper(reading@[5] as nat, 2) + ", "@
        + hex_upper(reading@[6] as nat, 2) + "], als: "@ + decimal(reading.spec_als() as nat)
        + ", bar: "@ + decimal(reading.spec_bar() as nat) + ", temp: "@ + decimal(
        reading.spec_temp() as nat,
    ) + ", hum: "@ + decimal(reading.spec_hum() as nat) + ", voc: "@ + decimal(
        reading.spec_voc() as nat,
    ) + ", pm1_0: "@ + decimal(reading.spec_pm1_0() as nat) + ", pm2_5: "@ + decimal(
        reading.spec_pm2_5() as nat,
    ) + ", pm10: "@ + decimal(reading.spec_pm10() as nat) + ", co2: "@ + decimal(
        reading.spec_co2_raw() as nat,
    ) + ", voc_type: "@ + decimal(reading.spec_voc_type() as nat) + ")"@
}

impl HibouAir {
    /// The name of the board kind.
    pub fn get_board_type_string(&self) -> (r: String)
        ensures
            r@ == board_type_label(board_type_or_unknown(self.spec_board_type())),
    {
        match self.get_board_type() {
            HibouAirType::PmSensor => "PM".to_owned(),
            HibouAirType::Co2Sensor => "CO2".to_owned(),
            HibouAirType::TempHumSensor => "Temp/Hum".to_owned(),
            HibouAirType::No2OutdoorWifi => "NO2 Outdoor WiFi".to_owned(),
            HibouAirType::Co2Battery => "CO2 Battery".to_owned(),
            HibouAirType::No2OutdoorLtemNbiot => "NO2 Outdoor LTEM NBIOT".to_owned(),
            HibouAirType::PirSensor => "PIR".to_owned(),
            HibouAirType::Co2Noise => "CO2 Noise".to_owned(),
            HibouAirType::DuoMaster => "Duo Master".to_owned(),
            HibouAirType::DuoSlave => "Duo Slave".to_owned(),
            HibouAirType::Matrix => "Matrix".to_owned(),
            HibouAirType::Unknown => "Unknown".to_owned(),
        }
    }

    /// The board identifier as six upper-case hexadecimal digits.
    pub fn get_board_id_string(&self) -> (r: String)
        ensures
            r@ == hex_upper(self.spec_id() as nat, 6),
            r@.len() == 6,
            forall|i: int| 0 <= i < 6 ==> is_upper_hex_digit(#[trigger] r@[i]),
    {
        let mut out = String::new();
        push_hex_upper(&mut out, self.get_id(), 6);
        proof {
            lemma_hex_upper(self.spec_id() as nat, 6);
            assert(out@ =~= hex_upper(self.spec_id() as nat, 6));
        }
        out
    }

    /// The unit of the VOC level.
    pub fn get_voc_unit(&self) -> (r: String)
        ensures
            r@ == voc_unit(self.spec_voc_type()),
    {
        match self.get_voc_type() {
            2 => "ppm".to_owned(),
            3 => "IAQ".to_owned(),
            _ => "".to_owned(),
        }
    }

    /// The VOC level with its unit, as text.
    pub fn get_voc_view(&self) -> (r: String)
        ensures
            r@ == voc_view(self.spec_voc(), self.spec_voc_type()),
    {
        let kind: u8 = self.get_voc_type();
        let mut out = String::new();
        if kind == 2 {
            let tenths: u16 = tenths_shown(self.get_voc_raw());
            push_decimal(&mut out, (tenths / 10) as u64);
            out.append(".");
            out.append(digit_str((tenths % 10) as u8));
            out.append(" ppm");
            proof {
                reveal_strlit(".");
                assert(out@ =~= voc_view(self.spec_voc(), self.spec_voc_type()));
            }
        } else if kind == 3 {
            push_decimal(&mut out, self.get_voc_raw() as u64);
            out.append(".0 IAQ");
            assert(out@ =~= voc_view(self.spec_voc(), self.spec_voc_type()));
        } else {
            proof {
                reveal_strlit("");
            }
            assert(out@ =~= voc_view(self.spec_voc(), self.spec_voc_type()));
        }
        out
    }

    /// The reading as text, every stored field by name.
    pub fn to_string(&self) -> (r: String)
        ensures
            r@ == display_text(*self),
    {
        let id: [u8; 3] = self.id_bytes();
        let mut out = String::new();
        out.append("HibouAir(mfid: ");
        assert(out@ =~= "HibouAir(mfid: "@);
        push_decimal(&mut out, self.get_mfid() as u64);
        out.append(", beacon_nr: ");
        push_decimal(&mut out, self.get_beacon_nr() as u64);
        out.append(", board_type: ");
        push_decimal(&mut out, self.get_board_type_code() as u64);
        out.append(", board_id: [");
        push_hex_upper(&mut out, id[0] as u32, 2);
        out.append(", ");
        push_hex_upper(&mut out, id[1] as u32, 2);
        out.append(", ");
        push_hex_upper(&mut out, id[2] as u32, 2);
        out.append("], als: ");
        push_decimal(&mut out, self.get_als() as u64);
        out.append(", bar: ");
        push_decimal(&mut out, self.get_bar_tenths() as u64);
        out.append(", temp: ");
        push_decimal(&mut out, self.get_temp_raw() as u64);
        out.append(", hum: ");
        push_decimal(&mut out, self.get_hum_tenths() as u64);
        out.append(", voc: ");
        push_decimal(&mut out, self.get_voc_raw() as u64);
        out.append(", pm1_0: ");
        push_decimal(&mut out, self.get_pm1_0_tenths() as u64);
        out.append(", pm2_5: ");
        push_decimal(&mut out, self.get_pm2_5_tenths() as u64);
        out.append(", pm10: ");
        push_decimal(&mut out, self.get_pm10_tenths() as u64);
        out.append(", co2: ");
        push_decimal(&mut out, self.get_co2_raw() as u64);
        out.append(", voc_type: ");
        push_decimal(&mut out, self.get_voc_type() as u64);
        out.append(")");
        out
    }
}

} // verus!
