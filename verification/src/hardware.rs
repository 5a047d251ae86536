//! The values a hardware backend reports, and the macOS backend's fan
//! addressing.
use vstd::prelude::*;
use crate::number::{push_signed_decimal, signed_decimal};
use crate::smc::FanCtlError;
use crate::text::{last_index_of, lemma_last_index_of, parse_u8, parse_u8_spec, rfind_char};

verus! {

/// Why a hardware operation failed.
#[derive(Clone, Debug, PartialEq, Eq)]
pub enum CoreError {
    /// No fan or sensor with that id.
    NotFound(String),
    /// The operation needs privileges the process does not have.
    PermissionDenied(String),
    /// The backend cannot do this at all.
    Unsupported(String),
    /// The hardware refused or failed.
    Hardware(String),
}

/// What a backend can do.
#[derive(Clone, Copy, Debug, PartialEq, Eq, Structural)]
pub struct Capabilities {
    pub read_temps: bool,
    pub read_fans: bool,
    pub control_fans: bool,
}

/// One fan as a backend reports it.
#[derive(Clone, Debug, PartialEq, Eq)]
pub struct Fan {
    pub id: String,
    pub label: String,
    pub rpm: u32,
    pub min_rpm: Option<u32>,
    pub max_rpm: Option<u32>,
    pub duty_percent: Option<u8>,
    pub controllable: bool,
}

/// The macOS backend, as far as its decisions go: whether the SMC could be
/// opened at start-up. The SMC connection it writes through is held by the
/// program around the library.
#[derive(Clone, Copy, Debug, PartialEq, Eq, Structural)]
pub struct MacosProvider {
    pub has_smc: bool,
}

impl MacosProvider {
    /// The backend's name.
    pub fn name(&self) -> (r: &'static str)
        ensures
            r@ == "macos"@,
    {
        "macos"
    }

    /// Reading and fan control are offered exactly when the SMC is present.
    pub fn capabilities(&self) -> (r: Capabilities)
        ensures
            r == (Capabilities {
                read_temps: self.has_smc,
                read_fans: self.has_smc,
                control_fans: self.has_smc,
            }),
    {
        Capabilities { read_temps: self.has_smc, read_fans: self.has_smc, control_fans: self.has_smc }
    }
}

/// The text after the last `.` of `s`, or all of `s` when it has none.
pub open spec fn after_last_dot(s: Seq<char>) -> Seq<char> {
    match last_index_of(s, '.') {
        Some(j) => s.skip(j + 1),
        None => s,
    }
}

/// The SMC index of fan `fan_id` (`fan.N` or a bare `N`), when it is below 10.
pub open spec fn fan_index_spec(fan_id: Seq<char>) -> Option<u8> {
    match parse_u8_spec(after_last_dot(fan_id)) {
        Some(n) => if n < 10 {
            Some(n)
        } else {
            None
        },
        None => None,
    }
}

/// The message of an unknown fan id.
pub open spec fn unknown_fan_message(fan_id: Seq<char>) -> Seq<char> {
    "fan id '"@ + fan_id + "'"@
}

/// The SMC index of fan `fan_id`.
pub fn fan_index(fan_id: &str) -> (r: Result<u8, CoreError>)
    ensures
        match r {
            Ok(n) => fan_index_spec(fan_id@) == Some(n),
            Err(e) => fan_index_spec(fan_id@) is None && (e matches CoreError::NotFound(m) && m@
                == unknown_fan_message(fan_id@)),
        },
{
    proof {
        lemma_last_index_of(fan_id@, '.');
    }
    let n = fan_id.unicode_len();
    let tail = match rfind_char(fan_id, '.') {
        Some(j) => fan_id.substring_char(j + 1, n),
        None => fan_id,
    };
    match parse_u8(tail) {
        Some(n) => {
            if n < 10 {
                return Ok(n);
            }
        },
        None => {},
    }
    let mut m = String::from_str("fan id '");
    m.append(fan_id);
    m.append("'");
    Err(CoreError::NotFound(m))
}

/// The hardware error a failed SMC write is reported as.
pub open spec fn fan_error_message(e: FanCtlError) -> Seq<char> {
    match e {
        FanCtlError::NotPrivileged => "SMC fan control requires root — re-run with `sudo`"@,
        FanCtlError::Open => "could not open AppleSMC"@,
        FanCtlError::Smc(code) => "SMC write failed (code "@ + signed_decimal(code as int) + ")"@,
    }
}

/// The hardware error a failed SMC write is reported as.
pub fn map_fan_err(e: FanCtlError) -> (r: CoreError)
    ensures
        match e {
            FanCtlError::NotPrivileged => r matches CoreError::PermissionDenied(m) && m@
                == fan_error_message(e),
            _ => r matches CoreError::Hardware(m) && m@ == fan_error_message(e),
        },
{
    match e {
        FanCtlError::NotPrivileged => CoreError::PermissionDenied(
            String::from_str("SMC fan control requires root — re-run with `sudo`"),
        ),
        FanCtlError::Open => CoreError::Hardware(String::from_str("could not open AppleSMC")),
        FanCtlError::Smc(code) => {
            let mut m = String::from_str("SMC write failed (code ");
            push_signed_decimal(&mut m, code);
            m.append(")");
            CoreError::Hardware(m)
        },
    }
}

/// The machine a backend runs on.
#[derive(Clone, Debug, PartialEq, Eq)]
pub struct HardwareInfo {
    pub cpu: String,
    pub gpu: Option<String>,
    pub motherboard: Option<String>,
    pub memory: Option<String>,
    pub os: String,
}

/// What a system-metrics monitor can report.
#[derive(Clone, Copy, Debug, PartialEq, Eq, Structural)]
pub struct MonitorCapabilities {
    pub cpu: bool,
    pub memory: bool,
    pub disks: bool,
    pub networks: bool,
    pub processes: bool,
    pub battery: bool,
}

/// Static facts about the operating system.
#[derive(Clone, Debug, PartialEq, Eq)]
pub struct SystemInfo {
    pub host_name: Option<String>,
    pub os_name: Option<String>,
    pub os_version: Option<String>,
    pub kernel_version: Option<String>,
    pub arch: String,
    pub uptime_secs: u64,
    pub logical_cores: usize,
    pub physical_cores: Option<usize>,
}

} // verus!
