//! What the daemon is set up with.

use crate::daemon::companion_app::AppConfig;
use crate::number::{parse_i64, written_i64};
use crate::text::chars_of;
use vstd::prelude::*;

verus! {

/// The port the daemon listens on, unless told otherwise.
pub const DEFAULT_PORT: u16 = 8800;

/// Whether what the environment says of the companion app can be made sense
/// of: if it says everything, the version is a whole number.
pub open spec fn makes_sense(
    package: Option<String>,
    activity: Option<String>,
    apk_path: Option<String>,
    version_code: Option<String>,
) -> bool {
    package is Some && activity is Some && apk_path is Some && version_code is Some
        ==> written_i64(version_code->0@) is Some
}

fn parse_version(version: &str) -> (version_code: Option<i64>)
    ensures
        version_code == written_i64(version@),
{
    let chars = chars_of(version);
    assert(chars@.subrange(0, chars@.len() as int) == version@);
    parse_i64(chars.as_slice(), 0, chars.len())
}

/// Whether what the environment says of the companion app can be made sense
/// of.
pub fn can_be_read(
    package: &Option<String>,
    activity: &Option<String>,
    apk_path: &Option<String>,
    version_code: &Option<String>,
) -> (readable: bool)
    ensures
        readable == makes_sense(*package, *activity, *apk_path, *version_code),
{
    match (package, activity, apk_path, version_code) {
        (Some(_), Some(_), Some(_), Some(version)) => parse_version(version.as_str()).is_some(),
        _ => true,
    }
}

/// The companion app, from what the environment says of it. Nothing is said
/// of it unless everything is, and the version must then be a number.
pub fn app_config_from_env(
    package: Option<String>,
    activity: Option<String>,
    apk_path: Option<String>,
    version_code: Option<String>,
) -> (config: Option<AppConfig>)
    requires
        makes_sense(package, activity, apk_path, version_code),
    ensures
        match (package, activity, apk_path, version_code) {
            (Some(package), Some(activity), Some(apk_path), Some(version)) => config == Some(
                AppConfig {
                    package,
                    activity,
                    apk_path,
                    version_code: written_i64(version@)->0,
                },
            ),
            _ => config is None,
        },
{
    match (package, activity, apk_path, version_code) {
        (Some(package), Some(activity), Some(apk_path), Some(version)) => {
            match parse_version(version.as_str()) {
                Some(version_code) => Some(
                    AppConfig { package, activity, apk_path, version_code },
                ),
                None => None,
            }
        },
        _ => None,
    }
}

} // verus!
