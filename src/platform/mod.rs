use vstd::prelude::*;
use vstd::string::StringExecFns;

pub mod android;

verus! {

fn same_text(a: &str, b: &str) -> (r: bool)
    ensures
        r == (a@ == b@),
{
    String::from_str(a) == String::from_str(b)
}

/// The platform tag advertised for the operating system `os`.
pub open spec fn platform_tag_spec(os: Seq<char>) -> Seq<char> {
    if os == "macos"@ {
        "macos"@
    } else if os == "android"@ {
        "android"@
    } else if os == "ios"@ {
        "ios"@
    } else if os == "windows"@ {
        "windows"@
    } else {
        "unknown"@
    }
}

/// The display name of the operating system `os`.
pub open spec fn platform_name_spec(os: Seq<char>) -> Seq<char> {
    if os == "macos"@ {
        "macOS"@
    } else if os == "android"@ {
        "Android"@
    } else if os == "ios"@ {
        "iOS"@
    } else if os == "windows"@ {
        "Windows"@
    } else {
        "Unknown"@
    }
}

pub fn platform_tag(os: &str) -> (r: String)
    ensures
        r@ == platform_tag_spec(os@),
{
    if same_text(os, "macos") {
        String::from_str("macos")
    } else if same_text(os, "android") {
        String::from_str("android")
    } else if same_text(os, "ios") {
        String::from_str("ios")
    } else if same_text(os, "windows") {
        String::from_str("windows")
    } else {
        String::from_str("unknown")
    }
}

pub fn get_platform_name(os: &str) -> (r: String)
    ensures
        r@ == platform_name_spec(os@),
{
    if same_text(os, "macos") {
        String::from_str("macOS")
    } else if same_text(os, "android") {
        String::from_str("Android")
    } else if same_text(os, "ios") {
        String::from_str("iOS")
    } else if same_text(os, "windows") {
        String::from_str("Windows")
    } else {
        String::from_str("Unknown")
    }
}

/// The platform version to show: the one the system reported, if any.
pub fn get_platform_version(reported: Option<String>) -> (r: String)
    ensures
        r@ == match reported {
            Some(v) => v@,
            None => "Unknown"@,
        },
{
    match reported {
        Some(v) => v,
        None => String::from_str("Unknown"),
    }
}

/// The name this device goes by on the operating system `os`; on macOS the
/// configured computer name when it could be read.
pub fn get_device_name(os: &str, computer_name: Option<String>) -> (r: String)
    ensures
        r@ == (if os@ == "macos"@ {
            match computer_name {
                Some(n) => n@,
                None => "MacOS Device"@,
            }
        } else if os@ == "android"@ {
            "Android Device"@
        } else if os@ == "ios"@ {
            "iOS Device"@
        } else if os@ == "windows"@ {
            "Windows Device"@
        } else {
            "Unknown Device"@
        }),
{
    if same_text(os, "macos") {
        match computer_name {
            Some(n) => n,
            None => String::from_str("MacOS Device"),
        }
    } else if same_text(os, "android") {
        String::from_str("Android Device")
    } else if same_text(os, "ios") {
        String::from_str("iOS Device")
    } else if same_text(os, "windows") {
        String::from_str("Windows Device")
    } else {
        String::from_str("Unknown Device")
    }
}

} // verus!
