//! CPU scaling-governor and scaling-frequency controller.
//!
//! The governor and the frequency each live in one pseudo-file under a
//! per-core path prefix. The set of writable frequencies is closed: a level
//! that is not one of the three supported set-points cannot even be
//! constructed, so an arbitrary number is never written. The governor write
//! token is fixed. The path-open and the write are separate, distinguishable
//! failure points.

use crate::text::str_eq;
use crate::WriteOutcome;
use vstd::prelude::*;
use vstd::string::*;

verus! {

#[derive(Debug, Clone, Copy, PartialEq, Eq)]
pub enum CpuGovernanceCtlErrorCodes {
    FailedToSetCpuGovernor,
    FailedToSetCpuGovernorPath,
    FailedToGetCpuGovernor,
    FailedToGetCpuFrequency,
    FailedToSetCpuFrequency,
    FailedToSetCpuFrequencyPath,
    FailedToOpenFile,
    FailedToWriteToFile,
    FailedToReadFile,
    UnknownError,
}

impl CpuGovernanceCtlErrorCodes {
    /// The code's name, as the front-ends print it.
    pub fn name(&self) -> (r: String)
        ensures
            match *self {
                CpuGovernanceCtlErrorCodes::FailedToSetCpuGovernor => r@
                    == "FailedToSetCpuGovernor"@,
                CpuGovernanceCtlErrorCodes::FailedToSetCpuGovernorPath => r@
                    == "FailedToSetCpuGovernorPath"@,
                CpuGovernanceCtlErrorCodes::FailedToGetCpuGovernor => r@
                    == "FailedToGetCpuGovernor"@,
                CpuGovernanceCtlErrorCodes::FailedToGetCpuFrequency => r@
                    == "FailedToGetCpuFrequency"@,
                CpuGovernanceCtlErrorCodes::FailedToSetCpuFrequency => r@
                    == "FailedToSetCpuFrequency"@,
                CpuGovernanceCtlErrorCodes::FailedToSetCpuFrequencyPath => r@
                    == "FailedToSetCpuFrequencyPath"@,
                CpuGovernanceCtlErrorCodes::FailedToOpenFile => r@ == "FailedToOpenFile"@,
                CpuGovernanceCtlErrorCodes::FailedToWriteToFile => r@ == "FailedToWriteToFile"@,
                CpuGovernanceCtlErrorCodes::FailedToReadFile => r@ == "FailedToReadFile"@,
                CpuGovernanceCtlErrorCodes::UnknownError => r@ == "UnknownError"@,
            },
    {
        match *self {
            CpuGovernanceCtlErrorCodes::FailedToSetCpuGovernor => String::from_str(
                "FailedToSetCpuGovernor",
            ),
            CpuGovernanceCtlErrorCodes::FailedToSetCpuGovernorPath => String::from_str(
                "FailedToSetCpuGovernorPath",
            ),
            CpuGovernanceCtlErrorCodes::FailedToGetCpuGovernor => String::from_str(
                "FailedToGetCpuGovernor",
            ),
            CpuGovernanceCtlErrorCodes::FailedToGetCpuFrequency => String::from_str(
                "FailedToGetCpuFrequency",
            ),
            CpuGovernanceCtlErrorCodes::FailedToSetCpuFrequency => String::from_str(
                "FailedToSetCpuFrequency",
            ),
            CpuGovernanceCtlErrorCodes::FailedToSetCpuFrequencyPath => String::from_str(
                "FailedToSetCpuFrequencyPath",
            ),
            CpuGovernanceCtlErrorCodes::FailedToOpenFile => String::from_str("FailedToOpenFile"),
            CpuGovernanceCtlErrorCodes::FailedToWriteToFile => String::from_str(
                "FailedToWriteToFile",
            ),
            CpuGovernanceCtlErrorCodes::FailedToReadFile => String::from_str("FailedToReadFile"),
            CpuGovernanceCtlErrorCodes::UnknownError => String::from_str("UnknownError"),
        }
    }
}

#[derive(Debug)]
pub struct CpuGovernanceCtlError {
    pub code: CpuGovernanceCtlErrorCodes,
    pub message: String,
}

impl CpuGovernanceCtlError {
    pub fn new(code: CpuGovernanceCtlErrorCodes, message: String) -> (r: Self)
        ensures
            r.code == code,
            r.message == message,
    {
        CpuGovernanceCtlError { code, message }
    }
}

/// The closed set of writable frequency set-points.
#[derive(Debug, Clone, Copy, PartialEq, Eq)]
pub enum CpuFrequency {
    Freq1200000,
    Freq1600000,
    Freq1800000,
}

impl CpuFrequency {
    /// The exact token written to the scaling-setspeed file for this level.
    pub fn token(&self) -> (r: &'static str)
        ensures
            match *self {
                CpuFrequency::Freq1200000 => r@ == "1200000"@,
                CpuFrequency::Freq1600000 => r@ == "1600000"@,
                CpuFrequency::Freq1800000 => r@ == "1800000"@,
            },
    {
        match *self {
            CpuFrequency::Freq1200000 => "1200000",
            CpuFrequency::Freq1600000 => "1600000",
            CpuFrequency::Freq1800000 => "1800000",
        }
    }

    /// Construct a level from a requested megahertz token. This boundary is
    /// where an out-of-set request dies: only the three supported tokens
    /// yield a level, so nothing else ever reaches the write step.
    pub fn from_level(level: &str) -> (r: Option<CpuFrequency>)
        ensures
            r is Some <==> (level@ == "1200"@ || level@ == "1600"@ || level@ == "1800"@),
            level@ == "1200"@ ==> r == Some(CpuFrequency::Freq1200000),
            level@ == "1600"@ ==> r == Some(CpuFrequency::Freq1600000),
            level@ == "1800"@ ==> r == Some(CpuFrequency::Freq1800000),
    {
        proof {
            reveal_strlit("1200");
            reveal_strlit("1600");
            reveal_strlit("1800");
            assert("1200"@[1] == '2' && "1600"@[1] == '6' && "1800"@[1] == '8');
            assert("1200"@ != "1600"@ && "1200"@ != "1800"@ && "1600"@ != "1800"@);
        }
        if str_eq(level, "1200") {
            Some(CpuFrequency::Freq1200000)
        } else if str_eq(level, "1600") {
            Some(CpuFrequency::Freq1600000)
        } else if str_eq(level, "1800") {
            Some(CpuFrequency::Freq1800000)
        } else {
            None
        }
    }
}

/// Handle to the per-core cpufreq directory.
#[derive(Debug)]
pub struct CpuGovernanceCtl {
    pub cpu_frequency_path: String,
}

impl CpuGovernanceCtl {
    pub fn new() -> (r: Self)
        ensures
            r.cpu_frequency_path@ == "/sys/devices/system/cpu/cpu0/cpufreq"@,
    {
        CpuGovernanceCtl {
            cpu_frequency_path: String::from_str("/sys/devices/system/cpu/cpu0/cpufreq"),
        }
    }

    /// Path of the scaling-governor file under the configured prefix.
    pub fn governor_file(&self) -> (r: String)
        ensures
            r@ == self.cpu_frequency_path@ + "/scaling_governor"@,
    {
        let mut r = self.cpu_frequency_path.clone();
        r.append("/scaling_governor");
        r
    }

    /// Path of the current-frequency file under the configured prefix.
    pub fn frequency_read_file(&self) -> (r: String)
        ensures
            r@ == self.cpu_frequency_path@ + "/scaling_cur_freq"@,
    {
        let mut r = self.cpu_frequency_path.clone();
        r.append("/scaling_cur_freq");
        r
    }

    /// Path of the set-speed file under the configured prefix.
    pub fn frequency_write_file(&self) -> (r: String)
        ensures
            r@ == self.cpu_frequency_path@ + "/scaling_setspeed"@,
    {
        let mut r = self.cpu_frequency_path.clone();
        r.append("/scaling_setspeed");
        r
    }

    /// The fixed token the governor write always carries: this controller
    /// takes no governor name from its caller.
    pub fn governor_token(&self) -> (r: &'static str)
        ensures
            r@ == "userspace"@,
    {
        "userspace"
    }

    /// Type the outcome of the governor write: a file that could not be
    /// created is a path error, a failed write a value error.
    pub fn set_cpu_governor(&self, outcome: WriteOutcome) -> (r: Result<
        (),
        CpuGovernanceCtlError,
    >)
        ensures
            outcome is Written <==> r is Ok,
            outcome is CouldNotCreate ==> r is Err && r->Err_0.code
                is FailedToSetCpuGovernorPath,
            outcome is CouldNotWrite ==> r is Err && r->Err_0.code is FailedToSetCpuGovernor,
    {
        match outcome {
            WriteOutcome::Written => Ok(()),
            WriteOutcome::CouldNotCreate => Err(
                CpuGovernanceCtlError::new(
                    CpuGovernanceCtlErrorCodes::FailedToSetCpuGovernorPath,
                    String::from_str("failed to set CPU governor"),
                ),
            ),
            WriteOutcome::CouldNotWrite => Err(
                CpuGovernanceCtlError::new(
                    CpuGovernanceCtlErrorCodes::FailedToSetCpuGovernor,
                    String::from_str("failed to set CPU governor"),
                ),
            ),
        }
    }

    /// The governor file's contents pass through verbatim — no trimming
    /// beyond what the text naturally holds; an unreadable file is typed.
    pub fn get_cpu_governor(&self, contents: Option<&str>) -> (r: Result<
        String,
        CpuGovernanceCtlError,
    >)
        ensures
            contents is None ==> r is Err && r->Err_0.code is FailedToGetCpuGovernor,
            contents matches Some(c) ==> r is Ok && r->Ok_0@ == c@,
    {
        match contents {
            Some(c) => Ok(String::from_str(c)),
            None => Err(
                CpuGovernanceCtlError::new(
                    CpuGovernanceCtlErrorCodes::FailedToGetCpuGovernor,
                    String::from_str("failed to get CPU governor"),
                ),
            ),
        }
    }

    /// The current-frequency file's contents pass through verbatim.
    pub fn get_cpu_frequency(&self, contents: Option<&str>) -> (r: Result<
        String,
        CpuGovernanceCtlError,
    >)
        ensures
            contents is None ==> r is Err && r->Err_0.code is FailedToGetCpuFrequency,
            contents matches Some(c) ==> r is Ok && r->Ok_0@ == c@,
    {
        match contents {
            Some(c) => Ok(String::from_str(c)),
            None => Err(
                CpuGovernanceCtlError::new(
                    CpuGovernanceCtlErrorCodes::FailedToGetCpuFrequency,
                    String::from_str("failed to get CPU frequency"),
                ),
            ),
        }
    }

    /// Type the outcome of writing a level's token to the set-speed file.
    /// The level itself is already closed (`CpuFrequency`), so only the two
    /// file failure points remain, and they stay distinct.
    pub fn set_cpu_frequency(&self, frequency: CpuFrequency, outcome: WriteOutcome) -> (r: Result<
        (),
        CpuGovernanceCtlError,
    >)
        ensures
            outcome is Written <==> r is Ok,
            outcome is CouldNotCreate ==> r is Err && r->Err_0.code
                is FailedToSetCpuFrequencyPath,
            outcome is CouldNotWrite ==> r is Err && r->Err_0.code is FailedToSetCpuFrequency,
    {
        match outcome {
            WriteOutcome::Written => Ok(()),
            WriteOutcome::CouldNotCreate => Err(
                CpuGovernanceCtlError::new(
                    CpuGovernanceCtlErrorCodes::FailedToSetCpuFrequencyPath,
                    String::from_str("failed to set CPU frequency"),
                ),
            ),
            WriteOutcome::CouldNotWrite => Err(
                CpuGovernanceCtlError::new(
                    CpuGovernanceCtlErrorCodes::FailedToSetCpuFrequency,
                    String::from_str("failed to set CPU frequency"),
                ),
            ),
        }
    }
}

} // verus!
