//! The battery records that the charge controller reads from sysfs:
//! comma-separated records (`bcc_parms`, `battery_log_content`) and the
//! capacity node.

use vstd::prelude::*;
use crate::text::{chars_of, comma_field, nth_comma_field, parse_unsigned, parse_unsigned_chars, trim, trim_chars};

verus! {

/// Field of `bcc_parms` that holds the first cell's voltage.
pub const CELL_VOLTAGE_1_FIELD: usize = 6;
/// Field of `bcc_parms` that holds the battery current.
pub const CURRENT_FIELD: usize = 8;
/// Field of `bcc_parms` that holds the second cell's voltage.
pub const CELL_VOLTAGE_2_FIELD: usize = 11;
/// Field of `battery_log_content` that holds the charger type.
pub const CHARGE_TYPE_FIELD: usize = 9;

/// One charge sample from `bcc_parms`, in whole units: the cell voltages in
/// mV rounded down, the current in mA rounded toward zero (its sign is the
/// node's own).
#[derive(Clone, Copy, Debug, PartialEq, Eq, Structural)]
pub struct BccParams {
    pub cell_voltage_1_mv: i64,
    pub cell_voltage_2_mv: i64,
    pub current_ma: i64,
}

/// Why a field of a record could not be read.
#[derive(Clone, Copy, Debug, PartialEq, Eq, Structural)]
pub enum FieldError {
    /// The record has no field at that position.
    Missing,
    /// The field is there but is not a number of the expected type.
    Invalid,
}

/// The trimmed text of the comma-separated field at `index`, if there is one.
pub open spec fn field_text(content: Seq<char>, index: int) -> Option<Seq<char>> {
    match comma_field(content, index) {
        Some(f) => Some(trim(f)),
        None => None,
    }
}

/// The unsigned value (at most `max`) of the comma-separated field at `index`.
pub open spec fn field_value(content: Seq<char>, index: int, max: nat) -> Result<nat, FieldError> {
    match field_text(content, index) {
        None => Err(FieldError::Missing),
        Some(t) => match parse_unsigned(t, max) {
            Some(v) => Ok(v),
            None => Err(FieldError::Invalid),
        },
    }
}

/// The trimmed text of the comma-separated field of `content` at `index`
/// (counting from zero), or `None` when the record is shorter.
pub fn comma_field_text(content: &str, index: usize) -> (r: Option<Vec<char>>)
    ensures
        match r {
            Some(t) => field_text(content@, index as int) == Some(t@),
            None => field_text(content@, index as int) is None,
        },
{
    let chars = chars_of(content);
    match nth_comma_field(&chars, index) {
        Some(f) => Some(trim_chars(&f)),
        None => None,
    }
}

/// Reads the comma-separated field at `index` as a `u32`.
pub fn parse_field_u32(content: &str, index: usize) -> (r: Result<u32, FieldError>)
    ensures
        match r {
            Ok(v) => field_value(content@, index as int, u32::MAX as nat) == Ok::<nat, FieldError>(v as nat),
            Err(e) => field_value(content@, index as int, u32::MAX as nat) == Err::<nat, FieldError>(e),
        },
{
    match comma_field_text(content, index) {
        None => Err(FieldError::Missing),
        Some(t) => match parse_unsigned_chars(&t, u32::MAX) {
            Some(v) => Ok(v),
            None => Err(FieldError::Invalid),
        },
    }
}

/// The charger type recorded in `battery_log_content` (its tenth field).
pub fn parse_charge_type(content: &str) -> (r: Result<u32, FieldError>)
    ensures
        match r {
            Ok(v) => field_value(content@, CHARGE_TYPE_FIELD as int, u32::MAX as nat) == Ok::<nat, FieldError>(v as nat),
            Err(e) => field_value(content@, CHARGE_TYPE_FIELD as int, u32::MAX as nat) == Err::<nat, FieldError>(e),
        },
{
    parse_field_u32(content, CHARGE_TYPE_FIELD)
}

/// The battery level in percent from the capacity node: the whole content,
/// trimmed, must be a `u8`.
pub fn parse_battery_capacity(content: &str) -> (r: Result<u8, FieldError>)
    ensures
        match r {
            Ok(v) => parse_unsigned(trim(content@), u8::MAX as nat) == Some(v as nat),
            Err(e) => e == FieldError::Invalid && parse_unsigned(trim(content@), u8::MAX as nat) is None,
        },
{
    let chars = chars_of(content);
    let t = trim_chars(&chars);
    match parse_unsigned_chars(&t, u8::MAX as u32) {
        Some(v) => Ok(v as u8),
        None => Err(FieldError::Invalid),
    }
}

} // verus!
