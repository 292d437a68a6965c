//! Power-supply controller: reads the battery status block and the
//! instantaneous-current file.
//!
//! The status block is newline-separated `KEY=VALUE` text. Unknown keys are
//! ignored; a malformed numeric value defaults that one field to zero; only
//! failing to open the block at all is an error. The surrounding application
//! reads the files and hands their contents in as plain values.

use crate::text::{
    find_char, parse_i32_text, parse_i64_text, parse_u32_text, parse_u8_text, spec_find_idx,
    spec_lines, spec_parse_i32, spec_parse_i64, spec_parse_u32, spec_parse_u8, spec_trim,
    split_lines, str_eq, trim_text,
};
use vstd::prelude::*;
use vstd::string::*;

verus! {

#[derive(Debug, Clone, Copy, PartialEq, Eq)]
pub enum PowerSupplyErrorCodes {
    FailedToOpenFile,
    FailedToReadFile,
    InvalidDataFormat,
    UnknownError,
}

impl PowerSupplyErrorCodes {
    /// The code's name, as the front-ends print it.
    pub fn name(&self) -> (r: String)
        ensures
            match *self {
                PowerSupplyErrorCodes::FailedToOpenFile => r@ == "FailedToOpenFile"@,
                PowerSupplyErrorCodes::FailedToReadFile => r@ == "FailedToReadFile"@,
                PowerSupplyErrorCodes::InvalidDataFormat => r@ == "InvalidDataFormat"@,
                PowerSupplyErrorCodes::UnknownError => r@ == "UnknownError"@,
            },
    {
        match *self {
            PowerSupplyErrorCodes::FailedToOpenFile => String::from_str("FailedToOpenFile"),
            PowerSupplyErrorCodes::FailedToReadFile => String::from_str("FailedToReadFile"),
            PowerSupplyErrorCodes::InvalidDataFormat => String::from_str("InvalidDataFormat"),
            PowerSupplyErrorCodes::UnknownError => String::from_str("UnknownError"),
        }
    }
}

#[derive(Debug)]
pub struct PowerSupplyError {
    pub code: PowerSupplyErrorCodes,
    pub message: String,
}

impl PowerSupplyError {
    pub fn new(code: PowerSupplyErrorCodes, message: String) -> (r: Self)
        ensures
            r.code == code,
            r.message == message,
    {
        PowerSupplyError { code, message }
    }
}

/// Point-in-time snapshot of the power-supply block. Any key absent from the
/// block leaves its field at the zero value.
#[derive(Debug)]
pub struct BatteryControl {
    pub name: String,
    pub supply_type: String,
    pub status: String,
    pub present: bool,
    pub voltage_now: u32,
    pub current_now: i32,
    pub capacity: u8,
    pub capacity_level: String,
    pub temp: i32,
    pub technology: String,
    pub charge_full: u32,
    pub charge_now: u32,
    pub charge_full_design: u32,
    pub manufacturer: String,
}

/// Mathematical image of a snapshot: text fields as character sequences.
#[verifier::ext_equal]
pub ghost struct SnapshotView {
    pub name: Seq<char>,
    pub supply_type: Seq<char>,
    pub status: Seq<char>,
    pub present: bool,
    pub voltage_now: u32,
    pub current_now: i32,
    pub capacity: u8,
    pub capacity_level: Seq<char>,
    pub temp: i32,
    pub technology: Seq<char>,
    pub charge_full: u32,
    pub charge_now: u32,
    pub charge_full_design: u32,
    pub manufacturer: Seq<char>,
}

impl View for BatteryControl {
    type V = SnapshotView;

    open spec fn view(&self) -> SnapshotView {
        SnapshotView {
            name: self.name@,
            supply_type: self.supply_type@,
            status: self.status@,
            present: self.present,
            voltage_now: self.voltage_now,
            current_now: self.current_now,
            capacity: self.capacity,
            capacity_level: self.capacity_level@,
            temp: self.temp,
            technology: self.technology@,
            charge_full: self.charge_full,
            charge_now: self.charge_now,
            charge_full_design: self.charge_full_design,
            manufacturer: self.manufacturer@,
        }
    }
}

/// The snapshot before any line has been read: empty text, zero numbers.
pub open spec fn spec_default_snapshot() -> SnapshotView {
    SnapshotView {
        name: Seq::empty(),
        supply_type: Seq::empty(),
        status: Seq::empty(),
        present: false,
        voltage_now: 0u32,
        current_now: 0i32,
        capacity: 0u8,
        capacity_level: Seq::empty(),
        temp: 0i32,
        technology: Seq::empty(),
        charge_full: 0u32,
        charge_now: 0u32,
        charge_full_design: 0u32,
        manufacturer: Seq::empty(),
    }
}

pub open spec fn spec_u32_or_zero(s: Seq<char>) -> u32 {
    match spec_parse_u32(s) {
        Some(v) => v,
        None => 0u32,
    }
}

pub open spec fn spec_i32_or_zero(s: Seq<char>) -> i32 {
    match spec_parse_i32(s) {
        Some(v) => v,
        None => 0i32,
    }
}

pub open spec fn spec_u8_or_zero(s: Seq<char>) -> u8 {
    match spec_parse_u8(s) {
        Some(v) => v,
        None => 0u8,
    }
}

/// One line of the block applied to a snapshot: split once at `=`, trim both
/// halves, update the named field; unknown keys change nothing.
pub open spec fn spec_apply_line(snap: SnapshotView, line: Seq<char>) -> SnapshotView {
    let eq = spec_find_idx(line, '=');
    let key = spec_trim(line.subrange(0, eq as int));
    let value = if eq == line.len() {
        Seq::<char>::empty()
    } else {
        spec_trim(line.subrange(eq as int + 1, line.len() as int))
    };
    if key == "POWER_SUPPLY_NAME"@ {
        SnapshotView { name: value, ..snap }
    } else if key == "POWER_SUPPLY_TYPE"@ {
        SnapshotView { supply_type: value, ..snap }
    } else if key == "POWER_SUPPLY_STATUS"@ {
        SnapshotView { status: value, ..snap }
    } else if key == "POWER_SUPPLY_PRESENT"@ {
        SnapshotView { present: value == "1"@, ..snap }
    } else if key == "POWER_SUPPLY_VOLTAGE_NOW"@ {
        SnapshotView { voltage_now: spec_u32_or_zero(value), ..snap }
    } else if key == "POWER_SUPPLY_CURRENT_NOW"@ {
        SnapshotView { current_now: spec_i32_or_zero(value), ..snap }
    } else if key == "POWER_SUPPLY_CAPACITY"@ {
        SnapshotView { capacity: spec_u8_or_zero(value), ..snap }
    } else if key == "POWER_SUPPLY_CAPACITY_LEVEL"@ {
        SnapshotView { capacity_level: value, ..snap }
    } else if key == "POWER_SUPPLY_TEMP"@ {
        SnapshotView { temp: spec_i32_or_zero(value), ..snap }
    } else if key == "POWER_SUPPLY_TECHNOLOGY"@ {
        SnapshotView { technology: value, ..snap }
    } else if key == "POWER_SUPPLY_CHARGE_FULL"@ {
        SnapshotView { charge_full: spec_u32_or_zero(value), ..snap }
    } else if key == "POWER_SUPPLY_CHARGE_NOW"@ {
        SnapshotView { charge_now: spec_u32_or_zero(value), ..snap }
    } else if key == "POWER_SUPPLY_CHARGE_FULL_DESIGN"@ {
        SnapshotView { charge_full_design: spec_u32_or_zero(value), ..snap }
    } else if key == "POWER_SUPPLY_MANUFACTURER"@ {
        SnapshotView { manufacturer: value, ..snap }
    } else {
        snap
    }
}

/// The block's lines folded over a starting snapshot, first line first.
pub open spec fn spec_parse_block(lines: Seq<Seq<char>>, snap: SnapshotView) -> SnapshotView
    decreases lines.len(),
{
    if lines.len() == 0 {
        snap
    } else {
        spec_parse_block(lines.drop_first(), spec_apply_line(snap, lines[0]))
    }
}

/// What `info` returns for given block contents.
pub open spec fn spec_power_snapshot(contents: Seq<char>) -> SnapshotView {
    spec_parse_block(spec_lines(contents), spec_default_snapshot())
}

/// The key half of a line: everything before the first `=`, trimmed.
pub open spec fn spec_key_of(line: Seq<char>) -> Seq<char> {
    spec_trim(line.subrange(0, spec_find_idx(line, '=') as int))
}

/// A line whose key is none of the block's fourteen is silently skipped:
/// it leaves every field exactly as it was.
pub proof fn lemma_unknown_key_ignored(snap: SnapshotView, line: Seq<char>)
    requires
        spec_key_of(line) != "POWER_SUPPLY_NAME"@,
        spec_key_of(line) != "POWER_SUPPLY_TYPE"@,
        spec_key_of(line) != "POWER_SUPPLY_STATUS"@,
        spec_key_of(line) != "POWER_SUPPLY_PRESENT"@,
        spec_key_of(line) != "POWER_SUPPLY_VOLTAGE_NOW"@,
        spec_key_of(line) != "POWER_SUPPLY_CURRENT_NOW"@,
        spec_key_of(line) != "POWER_SUPPLY_CAPACITY"@,
        spec_key_of(line) != "POWER_SUPPLY_CAPACITY_LEVEL"@,
        spec_key_of(line) != "POWER_SUPPLY_TEMP"@,
        spec_key_of(line) != "POWER_SUPPLY_TECHNOLOGY"@,
        spec_key_of(line) != "POWER_SUPPLY_CHARGE_FULL"@,
        spec_key_of(line) != "POWER_SUPPLY_CHARGE_NOW"@,
        spec_key_of(line) != "POWER_SUPPLY_CHARGE_FULL_DESIGN"@,
        spec_key_of(line) != "POWER_SUPPLY_MANUFACTURER"@,
    ensures
        spec_apply_line(snap, line) == snap,
{
}

/// A numeric key that never occurs in the block leaves its field at the
/// starting snapshot's value — so a key missing from a fresh read yields
/// zero, never an error.
pub proof fn lemma_missing_numeric_key_defaults(lines: Seq<Seq<char>>, snap: SnapshotView)
    ensures
        (forall|i: int| 0 <= i < lines.len() ==> spec_key_of(#[trigger] lines[i])
            != "POWER_SUPPLY_VOLTAGE_NOW"@) ==> spec_parse_block(lines, snap).voltage_now
            == snap.voltage_now,
        (forall|i: int| 0 <= i < lines.len() ==> spec_key_of(#[trigger] lines[i])
            != "POWER_SUPPLY_CURRENT_NOW"@) ==> spec_parse_block(lines, snap).current_now
            == snap.current_now,
        (forall|i: int| 0 <= i < lines.len() ==> spec_key_of(#[trigger] lines[i])
            != "POWER_SUPPLY_CAPACITY"@) ==> spec_parse_block(lines, snap).capacity
            == snap.capacity,
        (forall|i: int| 0 <= i < lines.len() ==> spec_key_of(#[trigger] lines[i])
            != "POWER_SUPPLY_TEMP"@) ==> spec_parse_block(lines, snap).temp == snap.temp,
        (forall|i: int| 0 <= i < lines.len() ==> spec_key_of(#[trigger] lines[i])
            != "POWER_SUPPLY_CHARGE_FULL"@) ==> spec_parse_block(lines, snap).charge_full
            == snap.charge_full,
        (forall|i: int| 0 <= i < lines.len() ==> spec_key_of(#[trigger] lines[i])
            != "POWER_SUPPLY_CHARGE_NOW"@) ==> spec_parse_block(lines, snap).charge_now
            == snap.charge_now,
        (forall|i: int| 0 <= i < lines.len() ==> spec_key_of(#[trigger] lines[i])
            != "POWER_SUPPLY_CHARGE_FULL_DESIGN"@) ==> spec_parse_block(
            lines,
            snap,
        ).charge_full_design == snap.charge_full_design,
    decreases lines.len(),
{
    if lines.len() > 0 {
        let rest = lines.drop_first();
        let snap1 = spec_apply_line(snap, lines[0]);
        assert(forall|i: int| 0 <= i < rest.len() ==> rest[i] == lines[i + 1]);
        lemma_missing_numeric_key_defaults(rest, snap1);
    }
}

fn parse_u32_or_zero(s: &str) -> (r: u32)
    ensures
        r == spec_u32_or_zero(s@),
{
    match parse_u32_text(s) {
        Some(v) => v,
        None => 0,
    }
}

fn parse_i32_or_zero(s: &str) -> (r: i32)
    ensures
        r == spec_i32_or_zero(s@),
{
    match parse_i32_text(s) {
        Some(v) => v,
        None => 0,
    }
}

fn parse_u8_or_zero(s: &str) -> (r: u8)
    ensures
        r == spec_u8_or_zero(s@),
{
    match parse_u8_text(s) {
        Some(v) => v,
        None => 0,
    }
}

/// Apply one `KEY=VALUE` line to the snapshot under construction.
fn apply_line(snap: BatteryControl, line: &str) -> (r: BatteryControl)
    ensures
        r@ == spec_apply_line(snap@, line@),
{
    let n = line.unicode_len();
    let eq = find_char(line, '=');
    let key = trim_text(line.substring_char(0, eq));
    let value: &str = if eq == n {
        proof {
            reveal_strlit("");
            assert(""@ =~= Seq::<char>::empty());
        }
        ""
    } else {
        trim_text(line.substring_char(eq + 1, n))
    };
    let mut r = snap;
    if str_eq(key, "POWER_SUPPLY_NAME") {
        r.name = String::from_str(value);
    } else if str_eq(key, "POWER_SUPPLY_TYPE") {
        r.supply_type = String::from_str(value);
    } else if str_eq(key, "POWER_SUPPLY_STATUS") {
        r.status = String::from_str(value);
    } else if str_eq(key, "POWER_SUPPLY_PRESENT") {
        r.present = str_eq(value, "1");
    } else if str_eq(key, "POWER_SUPPLY_VOLTAGE_NOW") {
        r.voltage_now = parse_u32_or_zero(value);
    } else if str_eq(key, "POWER_SUPPLY_CURRENT_NOW") {
        r.current_now = parse_i32_or_zero(value);
    } else if str_eq(key, "POWER_SUPPLY_CAPACITY") {
        r.capacity = parse_u8_or_zero(value);
    } else if str_eq(key, "POWER_SUPPLY_CAPACITY_LEVEL") {
        r.capacity_level = String::from_str(value);
    } else if str_eq(key, "POWER_SUPPLY_TEMP") {
        r.temp = parse_i32_or_zero(value);
    } else if str_eq(key, "POWER_SUPPLY_TECHNOLOGY") {
        r.technology = String::from_str(value);
    } else if str_eq(key, "POWER_SUPPLY_CHARGE_FULL") {
        r.charge_full = parse_u32_or_zero(value);
    } else if str_eq(key, "POWER_SUPPLY_CHARGE_NOW") {
        r.charge_now = parse_u32_or_zero(value);
    } else if str_eq(key, "POWER_SUPPLY_CHARGE_FULL_DESIGN") {
        r.charge_full_design = parse_u32_or_zero(value);
    } else if str_eq(key, "POWER_SUPPLY_MANUFACTURER") {
        r.manufacturer = String::from_str(value);
    }
    proof {
        assert(r@ =~= spec_apply_line(snap@, line@));
    }
    r
}

/// Handle to the power-supply block file and the instantaneous-current file.
#[derive(Debug)]
pub struct Battery {
    pub path: String,
    pub currnet_now: String,
}

impl Default for Battery {
    /// Both paths start empty; `set_device` fills the block path in.
    fn default() -> (r: Self)
        ensures
            r.path@ == Seq::<char>::empty(),
            r.currnet_now@ == Seq::<char>::empty(),
    {
        Battery { path: String::new(), currnet_now: String::new() }
    }
}

impl Battery {
    /// Build the snapshot from the block file's contents; `None` stands for a
    /// file that could not be opened, which is the one fatal error.
    pub fn info(&self, contents: Option<&str>) -> (r: Result<BatteryControl, PowerSupplyError>)
        ensures
            contents is None ==> r is Err && r->Err_0.code is FailedToOpenFile,
            contents is Some ==> r is Ok && r->Ok_0@ == spec_power_snapshot(contents->0@),
    {
        let text = match contents {
            None => {
                return Err(
                    PowerSupplyError::new(
                        PowerSupplyErrorCodes::FailedToOpenFile,
                        String::from_str("failed to open file"),
                    ),
                );
            },
            Some(text) => text,
        };
        let lines = split_lines(text);
        let ghost gl = lines.deep_view();
        let mut snap = BatteryControl {
            name: String::new(),
            supply_type: String::new(),
            status: String::new(),
            present: false,
            voltage_now: 0,
            current_now: 0,
            capacity: 0,
            capacity_level: String::new(),
            temp: 0,
            technology: String::new(),
            charge_full: 0,
            charge_now: 0,
            charge_full_design: 0,
            manufacturer: String::new(),
        };
        proof {
            assert(snap@ =~= spec_default_snapshot());
            assert(gl.subrange(0, gl.len() as int) =~= gl);
        }
        let n = lines.len();
        let mut idx: usize = 0;
        while idx < n
            invariant
                0 <= idx <= n,
                n == lines.len(),
                gl == lines.deep_view(),
                gl == spec_lines(text@),
                spec_parse_block(gl.subrange(idx as int, n as int), snap@) == spec_parse_block(
                    gl,
                    spec_default_snapshot(),
                ),
            decreases n - idx,
        {
            let line: &String = &lines[idx];
            proof {
                assert(gl[idx as int] == lines[idx as int]@);
                let rest = gl.subrange(idx as int, n as int);
                assert(rest[0] == gl[idx as int]);
                assert(rest.drop_first() =~= gl.subrange(idx as int + 1, n as int));
            }
            snap = apply_line(snap, line.as_str());
            idx = idx + 1;
        }
        proof {
            assert(gl.subrange(n as int, n as int) =~= Seq::<Seq<char>>::empty());
        }
        Ok(snap)
    }

    /// Replace the block path; an empty path is rejected before any state
    /// changes. Pure in-memory, no file is touched.
    pub fn set_device(&mut self, device: &str) -> (r: Result<(), PowerSupplyError>)
        ensures
            device@.len() == 0 ==> r is Err && r->Err_0.code is FailedToOpenFile
                && *final(self) == *old(self),
            device@.len() > 0 ==> r is Ok && final(self).path@ == device@
                && final(self).currnet_now == old(self).currnet_now,
    {
        if device.is_empty() {
            return Err(
                PowerSupplyError::new(
                    PowerSupplyErrorCodes::FailedToOpenFile,
                    String::from_str("failed to set device"),
                ),
            );
        }
        self.path = String::from_str(device);
        Ok(())
    }

    /// The configured block path; empty means no device was set.
    pub fn get_device(&self) -> (r: Result<&str, PowerSupplyError>)
        ensures
            self.path@.len() == 0 ==> r is Err && r->Err_0.code is FailedToOpenFile,
            self.path@.len() > 0 ==> r is Ok && r->Ok_0@ == self.path@,
    {
        if self.path.as_str().is_empty() {
            return Err(
                PowerSupplyError::new(
                    PowerSupplyErrorCodes::FailedToOpenFile,
                    String::from_str("Device path is empty"),
                ),
            );
        }
        Ok(self.path.as_str())
    }

    /// Parse the instantaneous-current file: one signed decimal, surrounding
    /// whitespace ignored. `None` stands for a file that could not be opened.
    pub fn get_current(&self, contents: Option<&str>) -> (r: Result<i64, PowerSupplyError>)
        ensures
            contents is None ==> r is Err && r->Err_0.code is FailedToOpenFile,
            contents matches Some(c) ==> match spec_parse_i64(spec_trim(c@)) {
                Some(v) => r == Ok::<i64, PowerSupplyError>(v),
                None => r is Err && r->Err_0.code is InvalidDataFormat,
            },
    {
        let text = match contents {
            None => {
                return Err(
                    PowerSupplyError::new(
                        PowerSupplyErrorCodes::FailedToOpenFile,
                        String::from_str("failed to open file"),
                    ),
                );
            },
            Some(text) => text,
        };
        match parse_i64_text(trim_text(text)) {
            Some(v) => Ok(v),
            None => Err(
                PowerSupplyError::new(
                    PowerSupplyErrorCodes::InvalidDataFormat,
                    String::from_str("Failed to parse current_now value"),
                ),
            ),
        }
    }
}

} // verus!
