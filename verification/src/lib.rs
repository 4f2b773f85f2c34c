//! Frame quality scoring and quality-gated capture for camera frames.
//!
//! Every fractional quantity is carried as an unsigned integer count of
//! millionths (see [`fixed`]), so that each contract is a statement about
//! integers.

pub mod errors;
pub mod fixed;
pub mod platform;
pub mod quality;
pub mod text;
pub mod types;

use crate::types::Platform;
use vstd::prelude::*;

verus! {

/// The version of this crate.
pub const VERSION: &'static str = "0.2.0";

/// The name of this crate.
pub const NAME: &'static str = "crabcamera";

/// What this crate is.
pub const DESCRIPTION: &'static str =
    "Advanced cross-platform camera integration for Tauri applications";

/// Crate information structure.
#[derive(Debug, Clone, PartialEq, Eq)]
pub struct CrateInfo {
    pub name: String,
    pub version: String,
    pub description: String,
    pub platform: Platform,
}

/// Detect the platform from the name of the running operating system.
pub fn current_platform(os: &str) -> (platform: Platform)
    ensures
        platform == Platform::spec_current(os@),
{
    Platform::current(os)
}

/// The name of the platform that `os` stands for.
pub fn current_platform_string(os: &str) -> (name: String)
    ensures
        name@ == Platform::spec_current(os@).spec_as_str(),
{
    Platform::current(os).as_str().to_string()
}

/// Get crate information, with the platform that `os` stands for.
pub fn get_info(os: &str) -> (info: CrateInfo)
    ensures
        info.name@ == NAME@,
        info.version@ == VERSION@,
        info.description@ == DESCRIPTION@,
        info.platform == Platform::spec_current(os@),
{
    CrateInfo {
        name: NAME.to_string(),
        version: VERSION.to_string(),
        description: DESCRIPTION.to_string(),
        platform: Platform::current(os),
    }
}

} // verus!
