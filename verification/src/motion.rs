//! Motion-sensor controller.
//!
//! Three per-axis raw value files are re-read on every call, never cached.
//! Each file holds one plain decimal reading, possibly signed, possibly with
//! a fraction. The reading is carried as plain values — sign, integer part,
//! fraction digits — and the motion event is derived from them: motion is
//! detected exactly when at least one axis reading is non-zero. A failing
//! axis aborts the whole call, and only the first failure is reported, in
//! x, y, z order.

use crate::text::{
    parse_magnitude_text, spec_all_digits, spec_digits_val, spec_find_idx, spec_lines, spec_trim,
    split_lines, trim_text,
};
use vstd::prelude::*;
use vstd::string::*;

verus! {

#[derive(Debug, Clone, Copy, PartialEq, Eq)]
pub enum MotionSensorControlErrorCodes {
    NoMotionDetected,
    UnableToReadMotionSensorControl,
    Unknown,
    UnableToOpenFile,
    UnableToParseValue,
}

impl MotionSensorControlErrorCodes {
    /// The code's name, as the front-ends print it.
    pub fn name(&self) -> (r: String)
        ensures
            match *self {
                MotionSensorControlErrorCodes::NoMotionDetected => r@ == "NoMotionDetected"@,
                MotionSensorControlErrorCodes::UnableToReadMotionSensorControl => r@
                    == "UnableToReadMotionSensorControl"@,
                MotionSensorControlErrorCodes::Unknown => r@ == "Unknown"@,
                MotionSensorControlErrorCodes::UnableToOpenFile => r@ == "UnableToOpenFile"@,
                MotionSensorControlErrorCodes::UnableToParseValue => r@ == "UnableToParseValue"@,
            },
    {
        match *self {
            MotionSensorControlErrorCodes::NoMotionDetected => String::from_str(
                "NoMotionDetected",
            ),
            MotionSensorControlErrorCodes::UnableToReadMotionSensorControl => String::from_str(
                "UnableToReadMotionSensorControl",
            ),
            MotionSensorControlErrorCodes::Unknown => String::from_str("Unknown"),
            MotionSensorControlErrorCodes::UnableToOpenFile => String::from_str(
                "UnableToOpenFile",
            ),
            MotionSensorControlErrorCodes::UnableToParseValue => String::from_str(
                "UnableToParseValue",
            ),
        }
    }
}

#[derive(Debug)]
pub struct MotionSensorControlError {
    pub code: MotionSensorControlErrorCodes,
    pub message: String,
}

impl MotionSensorControlError {
    pub fn new(code: MotionSensorControlErrorCodes, message: String) -> (r: Self)
        ensures
            r.code == code,
            r.message == message,
    {
        MotionSensorControlError { code, message }
    }
}

/// One axis reading as plain values: `-12.25` is sign, integer part 12,
/// fraction digits 25. The reading is zero exactly when both parts are zero,
/// whatever the sign.
#[derive(Debug, Clone, Copy, PartialEq, Eq)]
pub struct AxisValue {
    pub negative: bool,
    pub int_part: u64,
    pub frac_part: u64,
}

/// An axis reading is zero when both its parts are: `-0.0` counts as zero.
pub open spec fn spec_axis_zero(v: AxisValue) -> bool {
    v.int_part == 0 && v.frac_part == 0
}

/// The grammar of an axis file's reading: an optional sign, then decimal
/// digits with at most one point and at least one digit; the digit runs on
/// both sides of the point must fit a machine word.
pub open spec fn spec_parse_axis(s: Seq<char>) -> Option<AxisValue> {
    let neg = s.len() > 0 && s[0] == '-';
    let body = if s.len() > 0 && (s[0] == '-' || s[0] == '+') {
        s.drop_first()
    } else {
        s
    };
    let dot = spec_find_idx(body, '.');
    let ip = body.subrange(0, dot as int);
    let fp = if dot == body.len() {
        Seq::<char>::empty()
    } else {
        body.subrange(dot as int + 1, body.len() as int)
    };
    if ip.len() + fp.len() == 0 {
        None
    } else if !(spec_all_digits(ip) && spec_all_digits(fp)) {
        None
    } else if !(spec_digits_val(ip) <= u64::MAX && spec_digits_val(fp) <= u64::MAX) {
        None
    } else {
        Some(
            AxisValue {
                negative: neg,
                int_part: spec_digits_val(ip) as u64,
                frac_part: spec_digits_val(fp) as u64,
            },
        )
    }
}

/// What one axis yields for given file contents: `None` for an unopenable
/// or empty file and for an unparseable first line.
pub open spec fn spec_axis_of(contents: Option<Seq<char>>) -> Option<AxisValue> {
    match contents {
        None => None,
        Some(c) => {
            let ls = spec_lines(c);
            if ls.len() == 0 {
                None
            } else {
                spec_parse_axis(spec_trim(ls[0]))
            }
        },
    }
}

pub open spec fn spec_opt_view(x: Option<&str>) -> Option<Seq<char>> {
    match x {
        Some(s) => Some(s@),
        None => None,
    }
}

/// Motion is detected exactly when at least one axis reading is non-zero.
pub open spec fn spec_motion_event(x: AxisValue, y: AxisValue, z: AxisValue) -> bool {
    !spec_axis_zero(x) || !spec_axis_zero(y) || !spec_axis_zero(z)
}

/// The event predicate says no more and no less than "some axis is
/// non-zero": all three zero is the one and only quiet state.
pub proof fn lemma_motion_event_iff(x: AxisValue, y: AxisValue, z: AxisValue)
    ensures
        spec_motion_event(x, y, z) <==> !(spec_axis_zero(x) && spec_axis_zero(y) && spec_axis_zero(
            z,
        )),
{
}

/// Parse one axis reading: optional sign, digits, at most one point.
pub fn parse_axis(s: &str) -> (r: Option<AxisValue>)
    ensures
        r == spec_parse_axis(s@),
{
    let n = s.unicode_len();
    let start: usize = if n > 0 && (s.get_char(0) == '-' || s.get_char(0) == '+') {
        1
    } else {
        0
    };
    let negative = n > 0 && s.get_char(0) == '-';
    let body = s.substring_char(start, n);
    proof {
        if start == 1 {
            assert(body@ =~= s@.drop_first());
        } else {
            assert(body@ =~= s@);
        }
    }
    let bl = body.unicode_len();
    let dot = crate::text::find_char(body, '.');
    let ip = body.substring_char(0, dot);
    let fp = if dot == bl {
        proof {
            reveal_strlit("");
            assert(""@ =~= Seq::<char>::empty());
        }
        ""
    } else {
        body.substring_char(dot + 1, bl)
    };
    let ip_len = ip.unicode_len();
    let fp_len = fp.unicode_len();
    if ip_len == 0 && fp_len == 0 {
        return None;
    }
    let int_part: u64 = if ip_len == 0 {
        0
    } else {
        match parse_magnitude_text(ip) {
            Some(v) => v,
            None => {
                return None;
            },
        }
    };
    let frac_part: u64 = if fp_len == 0 {
        0
    } else {
        match parse_magnitude_text(fp) {
            Some(v) => v,
            None => {
                return None;
            },
        }
    };
    Some(AxisValue { negative, int_part, frac_part })
}

/// Per-axis file paths, x, y, z.
#[derive(Debug)]
pub struct MotionSensorControl {
    pub x_axis_path: String,
    pub y_axis_path: String,
    pub z_axis_path: String,
}

impl MotionSensorControl {
    pub fn new(x_path: &str, y_path: &str, z_path: &str) -> (r: Self)
        ensures
            r.x_axis_path@ == x_path@,
            r.y_axis_path@ == y_path@,
            r.z_axis_path@ == z_path@,
    {
        MotionSensorControl {
            x_axis_path: String::from_str(x_path),
            y_axis_path: String::from_str(y_path),
            z_axis_path: String::from_str(z_path),
        }
    }

    /// Read one axis from its file's contents: an unopenable (`None`) or
    /// empty file is an open error; a first line that is not a plain decimal
    /// is a parse error.
    pub fn read_axis(&self, contents: Option<&str>) -> (r: Result<
        AxisValue,
        MotionSensorControlError,
    >)
        ensures
            contents is None ==> r is Err && r->Err_0.code is UnableToOpenFile,
            contents matches Some(c) ==> ({
                let ls = spec_lines(c@);
                if ls.len() == 0 {
                    r is Err && r->Err_0.code is UnableToOpenFile
                } else {
                    match spec_parse_axis(spec_trim(ls[0])) {
                        Some(v) => r == Ok::<AxisValue, MotionSensorControlError>(v),
                        None => r is Err && r->Err_0.code is UnableToParseValue,
                    }
                }
            }),
            r is Ok <==> spec_axis_of(spec_opt_view(contents)) == Some(r->Ok_0),
    {
        let text = match contents {
            None => {
                return Err(
                    MotionSensorControlError::new(
                        MotionSensorControlErrorCodes::UnableToOpenFile,
                        String::from_str("unable to open file value"),
                    ),
                );
            },
            Some(text) => text,
        };
        let lines = split_lines(text);
        if lines.len() == 0 {
            return Err(
                MotionSensorControlError::new(
                    MotionSensorControlErrorCodes::UnableToOpenFile,
                    String::from_str("unable to open file"),
                ),
            );
        }
        let first: &String = &lines[0];
        proof {
            assert(lines.deep_view()[0] == lines[0]@);
        }
        match parse_axis(trim_text(first.as_str())) {
            Some(v) => Ok(v),
            None => Err(
                MotionSensorControlError::new(
                    MotionSensorControlErrorCodes::UnableToParseValue,
                    String::from_str("unable to parse value"),
                ),
            ),
        }
    }

    /// Read all three axes; the first failing axis, in x, y, z order, aborts
    /// the call, and the other axes' troubles go unreported.
    pub fn read_motion_sensor_value(
        &self,
        x: Option<&str>,
        y: Option<&str>,
        z: Option<&str>,
    ) -> (r: Result<(AxisValue, AxisValue, AxisValue), MotionSensorControlError>)
        ensures
            ({
                let vx = spec_axis_of(spec_opt_view(x));
                let vy = spec_axis_of(spec_opt_view(y));
                let vz = spec_axis_of(spec_opt_view(z));
                match (vx, vy, vz) {
                    (Some(a), Some(b), Some(c)) => r == Ok::<
                        (AxisValue, AxisValue, AxisValue),
                        MotionSensorControlError,
                    >((a, b, c)),
                    _ => {
                        &&& r is Err
                        &&& r->Err_0.code is UnableToReadMotionSensorControl
                        &&& (vx is None ==> r->Err_0.message@ == "unable to read x axis value"@)
                        &&& (vx is Some && vy is None ==> r->Err_0.message@
                            == "unable to read y axis value"@)
                        &&& (vx is Some && vy is Some && vz is None ==> r->Err_0.message@
                            == "unable to read z axis value"@)
                    },
                }
            }),
    {
        let rx = self.read_axis(x);
        let ry = self.read_axis(y);
        let rz = self.read_axis(z);
        match (rx, ry, rz) {
            (Ok(a), Ok(b), Ok(c)) => Ok((a, b, c)),
            (Err(_), _, _) => Err(
                MotionSensorControlError::new(
                    MotionSensorControlErrorCodes::UnableToReadMotionSensorControl,
                    String::from_str("unable to read x axis value"),
                ),
            ),
            (_, Err(_), _) => Err(
                MotionSensorControlError::new(
                    MotionSensorControlErrorCodes::UnableToReadMotionSensorControl,
                    String::from_str("unable to read y axis value"),
                ),
            ),
            (_, _, Err(_)) => Err(
                MotionSensorControlError::new(
                    MotionSensorControlErrorCodes::UnableToReadMotionSensorControl,
                    String::from_str("unable to read z axis value"),
                ),
            ),
        }
    }

    /// Detect a motion event: true exactly when `read_motion_sensor_value`
    /// yields at least one non-zero axis; a read failure passes through.
    pub fn detect_motion_sensor_event(
        &self,
        x: Option<&str>,
        y: Option<&str>,
        z: Option<&str>,
    ) -> (r: Result<bool, MotionSensorControlError>)
        ensures
            ({
                let vx = spec_axis_of(spec_opt_view(x));
                let vy = spec_axis_of(spec_opt_view(y));
                let vz = spec_axis_of(spec_opt_view(z));
                match (vx, vy, vz) {
                    (Some(a), Some(b), Some(c)) => r == Ok::<bool, MotionSensorControlError>(
                        spec_motion_event(a, b, c),
                    ),
                    _ => r is Err && r->Err_0.code is UnableToReadMotionSensorControl,
                }
            }),
    {
        let (a, b, c) = match self.read_motion_sensor_value(x, y, z) {
            Ok(t) => t,
            Err(e) => {
                return Err(
                    MotionSensorControlError::new(
                        MotionSensorControlErrorCodes::UnableToReadMotionSensorControl,
                        e.message,
                    ),
                );
            },
        };
        let quiet = a.int_part == 0 && a.frac_part == 0 && b.int_part == 0 && b.frac_part == 0
            && c.int_part == 0 && c.frac_part == 0;
        Ok(!quiet)
    }
}

} // verus!
