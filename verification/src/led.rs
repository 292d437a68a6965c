//! Tri-color indicator controller.
//!
//! Each channel has its own brightness pseudo-file. A set operation writes
//! the channels strictly in red, green, blue order, and the first failure
//! stops the sequence with earlier writes left applied: `set_led` fixes that
//! order in the plan it returns, and the surrounding application issues the
//! writes one by one. The RGB descriptor a front-end takes must split into
//! exactly three comma-separated 8-bit tokens; anything else is rejected
//! before any channel file is touched.

use crate::text::{parse_u8_text, spec_decimal, spec_parse_u8, spec_split, split_char, u8_decimal};
use crate::FileWrite;
use vstd::prelude::*;
use vstd::string::*;

verus! {

#[derive(Debug, Clone, Copy, PartialEq, Eq)]
pub enum LedctlErrorCodes {
    InvalidLedColorError,
    InvalidLedPathValueError,
}

impl LedctlErrorCodes {
    /// The code's name, as the front-ends print it.
    pub fn name(&self) -> (r: String)
        ensures
            match *self {
                LedctlErrorCodes::InvalidLedColorError => r@ == "InvalidLedColorError"@,
                LedctlErrorCodes::InvalidLedPathValueError => r@ == "InvalidLedPathValueError"@,
            },
    {
        match *self {
            LedctlErrorCodes::InvalidLedColorError => String::from_str("InvalidLedColorError"),
            LedctlErrorCodes::InvalidLedPathValueError => String::from_str(
                "InvalidLedPathValueError",
            ),
        }
    }
}

#[derive(Debug)]
pub struct LedctlError {
    pub code: LedctlErrorCodes,
    pub message: String,
}

impl LedctlError {
    pub fn new(code: LedctlErrorCodes, message: String) -> (r: Self)
        ensures
            r.code == code,
            r.message == message,
    {
        LedctlError { code, message }
    }
}

#[derive(Debug, Clone, Copy, PartialEq, Eq)]
pub enum LedColor {
    Red,
    Green,
    Blue,
}

/// Per-channel brightness file paths.
#[derive(Debug)]
pub struct LedControl {
    pub red_led_path: String,
    pub green_led_path: String,
    pub blue_led_path: String,
}

/// What the three tokens of an RGB descriptor denote: each channel is on
/// exactly when its token is a nonzero 8-bit decimal; any other shape of
/// descriptor is invalid.
pub open spec fn spec_rgb_of(s: Seq<char>) -> Option<(bool, bool, bool)> {
    let parts = spec_split(s, ',');
    if parts.len() != 3 {
        None
    } else {
        match (spec_parse_u8(parts[0]), spec_parse_u8(parts[1]), spec_parse_u8(parts[2])) {
            (Some(r), Some(g), Some(b)) => Some(((r != 0), (g != 0), (b != 0))),
            _ => None,
        }
    }
}

/// Decompose an RGB descriptor at the front-end boundary: exactly three
/// comma-separated tokens, each an 8-bit decimal, read as "nonzero means
/// on". Rejection happens here, before any channel file is touched.
pub fn parse_rgb(descriptor: &str) -> (r: Result<(bool, bool, bool), LedctlError>)
    ensures
        match spec_rgb_of(descriptor@) {
            Some(t) => r == Ok::<(bool, bool, bool), LedctlError>(t),
            None => r is Err && r->Err_0.code is InvalidLedColorError,
        },
{
    let parts = split_char(descriptor, ',');
    if parts.len() != 3 {
        return Err(
            LedctlError::new(
                LedctlErrorCodes::InvalidLedColorError,
                String::from_str("Invalid RGB values"),
            ),
        );
    }
    proof {
        assert(parts.deep_view()[0] == parts[0]@);
        assert(parts.deep_view()[1] == parts[1]@);
        assert(parts.deep_view()[2] == parts[2]@);
    }
    let red = parse_u8_text(parts[0].as_str());
    let green = parse_u8_text(parts[1].as_str());
    let blue = parse_u8_text(parts[2].as_str());
    match (red, green, blue) {
        (Some(r), Some(g), Some(b)) => Ok((r != 0, g != 0, b != 0)),
        _ => Err(
            LedctlError::new(
                LedctlErrorCodes::InvalidLedColorError,
                String::from_str("Invalid RGB values"),
            ),
        ),
    }
}

impl LedControl {
    pub fn new(red_led_path: &str, green_led_path: &str, blue_led_path: &str) -> (r: Self)
        ensures
            r.red_led_path@ == red_led_path@,
            r.green_led_path@ == green_led_path@,
            r.blue_led_path@ == blue_led_path@,
    {
        LedControl {
            red_led_path: String::from_str(red_led_path),
            green_led_path: String::from_str(green_led_path),
            blue_led_path: String::from_str(blue_led_path),
        }
    }

    /// Plan a set operation: exactly three whole-payload writes, in the
    /// fixed red, green, blue order, each channel's value as decimal ASCII
    /// with no newline.
    pub fn set_led(&self, red: u8, green: u8, blue: u8) -> (r: Vec<FileWrite>)
        ensures
            r@.len() == 3,
            r@[0].path@ == self.red_led_path@ && r@[0].payload@ == spec_decimal(red as int),
            r@[1].path@ == self.green_led_path@ && r@[1].payload@ == spec_decimal(green as int),
            r@[2].path@ == self.blue_led_path@ && r@[2].payload@ == spec_decimal(blue as int),
    {
        let mut writes: Vec<FileWrite> = Vec::new();
        writes.push(FileWrite { path: self.red_led_path.clone(), payload: u8_decimal(red) });
        writes.push(FileWrite { path: self.green_led_path.clone(), payload: u8_decimal(green) });
        writes.push(FileWrite { path: self.blue_led_path.clone(), payload: u8_decimal(blue) });
        writes
    }

    /// Plan a clear operation: the literal off token, written whole to
    /// exactly the named channel's file.
    pub fn clear_led(&self, color: LedColor) -> (r: FileWrite)
        ensures
            r.path@ == match color {
                LedColor::Red => self.red_led_path@,
                LedColor::Green => self.green_led_path@,
                LedColor::Blue => self.blue_led_path@,
            },
            r.payload@ == spec_decimal(0),
    {
        let path = match color {
            LedColor::Red => self.red_led_path.clone(),
            LedColor::Green => self.green_led_path.clone(),
            LedColor::Blue => self.blue_led_path.clone(),
        };
        FileWrite { path, payload: u8_decimal(0) }
    }

    /// Type the outcome of issuing a planned channel write: the first
    /// failure is wrapped and returned at once, with no retry.
    pub fn write_result(&self, wrote: bool) -> (r: Result<(), LedctlError>)
        ensures
            wrote <==> r is Ok,
            !wrote ==> r->Err_0.code is InvalidLedPathValueError,
    {
        if wrote {
            Ok(())
        } else {
            Err(
                LedctlError::new(
                    LedctlErrorCodes::InvalidLedPathValueError,
                    String::from_str("unable to write brightness value"),
                ),
            )
        }
    }
}

} // verus!
