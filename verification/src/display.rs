//! Display backlight controller.
//!
//! The backlight is one pseudo-file holding a single decimal integer in
//! `[0, 244]`. A value above the ceiling is rejected before the write path is
//! touched: `set_display_brightness` only ever hands back a payload for a
//! valid value, and the surrounding application writes that payload — the
//! complete byte string in one write — or nothing.

use crate::text::{
    lemma_lines_of_digits, lemma_trim_digits_identity, parse_u8_text, spec_decimal,
    spec_lines, spec_parse_u8, spec_trim, split_lines, trim_text, u8_decimal,
};
use crate::{valid_brightness, MAX_BRIGHTNESS};
use vstd::prelude::*;
use vstd::string::*;

verus! {

#[derive(Debug, Clone, Copy, PartialEq, Eq)]
pub enum DisplayErrorCodes {
    InvalidBrightnessValueError,
    InvalidBrightnessPathError,
    UnableToGetBrightness,
    UnableToSetBrightness,
    Unknown,
}

impl DisplayErrorCodes {
    /// The code's name, as the front-ends print it.
    pub fn name(&self) -> (r: String)
        ensures
            match *self {
                DisplayErrorCodes::InvalidBrightnessValueError => r@
                    == "InvalidBrightnessValueError"@,
                DisplayErrorCodes::InvalidBrightnessPathError => r@
                    == "InvalidBrightnessPathError"@,
                DisplayErrorCodes::UnableToGetBrightness => r@ == "UnableToGetBrightness"@,
                DisplayErrorCodes::UnableToSetBrightness => r@ == "UnableToSetBrightness"@,
                DisplayErrorCodes::Unknown => r@ == "Unknown"@,
            },
    {
        match *self {
            DisplayErrorCodes::InvalidBrightnessValueError => String::from_str(
                "InvalidBrightnessValueError",
            ),
            DisplayErrorCodes::InvalidBrightnessPathError => String::from_str(
                "InvalidBrightnessPathError",
            ),
            DisplayErrorCodes::UnableToGetBrightness => String::from_str("UnableToGetBrightness"),
            DisplayErrorCodes::UnableToSetBrightness => String::from_str("UnableToSetBrightness"),
            DisplayErrorCodes::Unknown => String::from_str("Unknown"),
        }
    }
}

#[derive(Debug)]
pub struct DisplayError {
    pub code: DisplayErrorCodes,
    pub message: String,
}

impl DisplayError {
    pub fn new(code: DisplayErrorCodes, message: String) -> (r: Self)
        ensures
            r.code == code,
            r.message == message,
    {
        DisplayError { code, message }
    }
}

/// Handle to the backlight brightness pseudo-file.
#[derive(Debug)]
pub struct DisplayControl {
    pub path: String,
}

impl DisplayControl {
    /// Construction is fail-fast: the application probes the path and hands
    /// the answer in; a missing path never yields a controller.
    pub fn new(path: &str, path_exists: bool) -> (r: Result<DisplayControl, DisplayError>)
        ensures
            !path_exists ==> r is Err && r->Err_0.code is InvalidBrightnessPathError,
            path_exists ==> r is Ok && r->Ok_0.path@ == path@,
    {
        if !path_exists {
            return Err(
                DisplayError::new(
                    DisplayErrorCodes::InvalidBrightnessPathError,
                    String::from_str("Invalid path"),
                ),
            );
        }
        Ok(DisplayControl { path: String::from_str(path) })
    }

    /// Validate a brightness value and render the exact payload to write:
    /// decimal ASCII, no newline. Above the ceiling nothing is handed back,
    /// so no write can happen.
    pub fn set_display_brightness(&self, brightness: u8) -> (r: Result<String, DisplayError>)
        ensures
            !valid_brightness(brightness) ==> r is Err && r->Err_0.code
                is InvalidBrightnessValueError,
            valid_brightness(brightness) ==> r is Ok && r->Ok_0@ == spec_decimal(
                brightness as int,
            ),
    {
        if brightness > MAX_BRIGHTNESS {
            return Err(
                DisplayError::new(
                    DisplayErrorCodes::InvalidBrightnessValueError,
                    String::from_str("invalid brightness value"),
                ),
            );
        }
        Ok(u8_decimal(brightness))
    }

    /// Parse the brightness file's contents: first line only, trimmed, read
    /// as an 8-bit decimal. `None` stands for a file that could not be
    /// opened, which is a path error, distinct from a value error.
    pub fn get_display_brightness(&self, contents: Option<&str>) -> (r: Result<u8, DisplayError>)
        ensures
            contents is None ==> r is Err && r->Err_0.code is InvalidBrightnessPathError,
            contents matches Some(c) ==> ({
                let ls = spec_lines(c@);
                if ls.len() == 0 {
                    r is Err && r->Err_0.code is InvalidBrightnessValueError
                } else {
                    match spec_parse_u8(spec_trim(ls[0])) {
                        Some(v) => r == Ok::<u8, DisplayError>(v),
                        None => r is Err && r->Err_0.code is InvalidBrightnessValueError,
                    }
                }
            }),
    {
        let text = match contents {
            None => {
                return Err(
                    DisplayError::new(
                        DisplayErrorCodes::InvalidBrightnessPathError,
                        String::from_str("Failed to open brightness file"),
                    ),
                );
            },
            Some(text) => text,
        };
        let lines = split_lines(text);
        if lines.len() == 0 {
            return Err(
                DisplayError::new(
                    DisplayErrorCodes::InvalidBrightnessValueError,
                    String::from_str("Failed to read brightness value"),
                ),
            );
        }
        let first: &String = &lines[0];
        proof {
            assert(lines.deep_view()[0] == lines[0]@);
        }
        match parse_u8_text(trim_text(first.as_str())) {
            Some(v) => Ok(v),
            None => Err(
                DisplayError::new(
                    DisplayErrorCodes::InvalidBrightnessValueError,
                    String::from_str("Failed to parse brightness value"),
                ),
            ),
        }
    }
}

/// Racing writers settle on a whole value. A brightness write is one
/// complete payload for one path, so when two callers race, the file ends
/// as one payload or the other — and either one reads back exactly as the
/// value it carried. Which of the two lands last is the operating system's
/// choice and is not decided here.
pub proof fn lemma_racing_brightness_writes(first: u8, second: u8)
    requires
        valid_brightness(first),
        valid_brightness(second),
    ensures
        spec_parse_u8(spec_trim(spec_lines(spec_decimal(first as int))[0])) == Some(first),
        spec_parse_u8(spec_trim(spec_lines(spec_decimal(second as int))[0])) == Some(second),
{
    lemma_brightness_round_trip(first);
    lemma_brightness_round_trip(second);
}

/// Brightness round trip: a file holding exactly the payload that
/// `set_display_brightness(v)` produced reads back as `v`.
pub proof fn lemma_brightness_round_trip(v: u8)
    requires
        valid_brightness(v),
    ensures
        ({
            let payload = spec_decimal(v as int);
            &&& spec_lines(payload).len() == 1
            &&& spec_parse_u8(spec_trim(spec_lines(payload)[0])) == Some(v)
        }),
{
    let payload = spec_decimal(v as int);
    crate::text::lemma_decimal_parses(v as int);
    lemma_lines_of_digits(payload);
    lemma_trim_digits_identity(payload);
}

} // verus!
