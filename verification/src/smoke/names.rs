//! How the smoke host names statuses, reasons and values in its reports.
use vstd::prelude::*;

use crate::text::{decimal, u64_to_string};

verus! {

/// The name of a request status code.
pub open spec fn status_text(status: u32) -> Seq<char> {
    if status == 1 { "Pending"@ }
    else if status == 2 { "Loading"@ }
    else if status == 3 { "Loaded"@ }
    else if status == 4 { "Registering"@ }
    else if status == 5 { "Registered"@ }
    else if status == 6 { "Ready"@ }
    else if status == 7 { "Unregistering"@ }
    else if status == 8 { "Unloading"@ }
    else if status == 9 { "Unloaded"@ }
    else if status == 10 { "Failed"@ }
    else if status == 11 { "Canceling"@ }
    else if status == 12 { "Canceled"@ }
    else { "Unknown"@ }
}

pub fn status_name(status: u32) -> (s: &'static str)
    ensures
        s@ == status_text(status),
{
    match status {
        1 => "Pending",
        2 => "Loading",
        3 => "Loaded",
        4 => "Registering",
        5 => "Registered",
        6 => "Ready",
        7 => "Unregistering",
        8 => "Unloading",
        9 => "Unloaded",
        10 => "Failed",
        11 => "Canceling",
        12 => "Canceled",
        _ => "Unknown",
    }
}

/// The name of a cancel reason code.
pub open spec fn cancel_reason_text(cancel_reason: u32) -> Seq<char> {
    if cancel_reason == 1 { "UserRequest"@ }
    else if cancel_reason == 2 { "EngineDestroyed"@ }
    else if cancel_reason == 3 { "SourceEvicted"@ }
    else if cancel_reason == 4 { "Timeout"@ }
    else if cancel_reason == 5 { "Backpressure"@ }
    else if cancel_reason == 6 { "Other"@ }
    else { "None"@ }
}

pub fn cancel_reason_name(cancel_reason: u32) -> (s: &'static str)
    ensures
        s@ == cancel_reason_text(cancel_reason),
{
    match cancel_reason {
        1 => "UserRequest",
        2 => "EngineDestroyed",
        3 => "SourceEvicted",
        4 => "Timeout",
        5 => "Backpressure",
        6 => "Other",
        _ => "None",
    }
}

/// How a release request was answered.
#[derive(Clone, Copy, Debug, PartialEq, Eq, Structural)]
pub enum ReleaseDisposition {
    Released,
    Deferred,
    NotFound,
    /// A disposition code that names none of the above.
    Unknown,
}

pub open spec fn release_disposition_text(d: ReleaseDisposition) -> Seq<char> {
    match d {
        ReleaseDisposition::Released => "Released"@,
        ReleaseDisposition::Deferred => "Deferred"@,
        ReleaseDisposition::NotFound => "NotFound"@,
        ReleaseDisposition::Unknown => "None"@,
    }
}

pub fn release_disposition_name(release_disposition: ReleaseDisposition) -> (s: &'static str)
    ensures
        s@ == release_disposition_text(release_disposition),
{
    match release_disposition {
        ReleaseDisposition::Released => "Released",
        ReleaseDisposition::Deferred => "Deferred",
        ReleaseDisposition::NotFound => "NotFound",
        ReleaseDisposition::Unknown => "None",
    }
}

/// The thread on which deferred cleanup runs.
#[derive(Clone, Copy, Debug, PartialEq, Eq, Structural)]
pub enum ThreadTarget {
    Platform,
    Raster,
    Worker,
}

pub open spec fn thread_target_text(target: ThreadTarget) -> Seq<char> {
    match target {
        ThreadTarget::Platform => "Platform"@,
        ThreadTarget::Raster => "Raster"@,
        ThreadTarget::Worker => "Worker"@,
    }
}

pub fn thread_target_name(target: ThreadTarget) -> (s: &'static str)
    ensures
        s@ == thread_target_text(target),
{
    match target {
        ThreadTarget::Platform => "Platform",
        ThreadTarget::Raster => "Raster",
        ThreadTarget::Worker => "Worker",
    }
}

pub fn display_u64(value: u64) -> (s: String)
    ensures
        s@ == decimal(value as nat),
{
    u64_to_string(value)
}

/// An optional value: its decimal rendering, or "-" when absent.
pub open spec fn optional_u64_text(value: Option<u64>) -> Seq<char> {
    match value {
        Some(v) => decimal(v as nat),
        None => "-"@,
    }
}

pub fn display_optional_u64(value: Option<u64>) -> (s: String)
    ensures
        s@ == optional_u64_text(value),
{
    match value {
        Some(v) => display_u64(v),
        None => String::from_str("-"),
    }
}

/// A value that is meaningful only when not negative: "-" otherwise.
pub open spec fn i64_text(value: i64) -> Seq<char> {
    if value < 0 {
        "-"@
    } else {
        decimal(value as nat)
    }
}

pub fn display_i64(value: i64) -> (s: String)
    ensures
        s@ == i64_text(value),
{
    if value < 0 {
        String::from_str("-")
    } else {
        u64_to_string(value as u64)
    }
}

pub open spec fn optional_bool_text(value: Option<bool>) -> Seq<char> {
    match value {
        Some(true) => "true"@,
        Some(false) => "false"@,
        None => "-"@,
    }
}

pub fn display_bool(value: Option<bool>) -> (s: &'static str)
    ensures
        s@ == optional_bool_text(value),
{
    match value {
        Some(true) => "true",
        Some(false) => "false",
        None => "-",
    }
}

} // verus!
