//! Recording permissions: how each system answer maps to a permission
//! status, and the settings page that grants each one.
use vstd::prelude::*;

verus! {

/// Status of a permission as the pages show it.
#[derive(Clone, Copy, Debug, PartialEq, Eq, Structural)]
pub enum PermissionStatus {
    Granted,
    Denied,
    NotDetermined,
}

/// Privacy settings sections.
#[derive(Clone, Copy, Debug, PartialEq, Eq, Structural)]
pub enum PrivacySection {
    ScreenCapture,
    Microphone,
    Accessibility,
}

/// Screen capture: the system cannot tell a refusal from no answer yet, so
/// anything but trusted is "not determined" (the page offers to ask).
pub fn screen_capture_status(trusted: bool) -> (s: PermissionStatus)
    ensures
        s == (if trusted { PermissionStatus::Granted } else { PermissionStatus::NotDetermined }),
{
    if trusted {
        PermissionStatus::Granted
    } else {
        PermissionStatus::NotDetermined
    }
}

/// Accessibility: trusted or denied.
pub fn accessibility_status(trusted: bool) -> (s: PermissionStatus)
    ensures
        s == (if trusted { PermissionStatus::Granted } else { PermissionStatus::Denied }),
{
    if trusted {
        PermissionStatus::Granted
    } else {
        PermissionStatus::Denied
    }
}

/// Microphone: granted exactly when a test input stream could be opened and
/// started (no input device, no usable sample format, or a failure to build
/// or start it is a denial).
pub fn microphone_status(stream_started: bool) -> (s: PermissionStatus)
    ensures
        s == (if stream_started { PermissionStatus::Granted } else { PermissionStatus::Denied }),
{
    if stream_started {
        PermissionStatus::Granted
    } else {
        PermissionStatus::Denied
    }
}

/// The settings URL of a privacy section.
pub open spec fn privacy_url(section: PrivacySection) -> Seq<char> {
    match section {
        PrivacySection::ScreenCapture => "x-apple.systempreferences:com.apple.preference.security?Privacy_ScreenCapture"@,
        PrivacySection::Microphone => "x-apple.systempreferences:com.apple.preference.security?Privacy_Microphone"@,
        PrivacySection::Accessibility => "x-apple.systempreferences:com.apple.preference.security?Privacy_Assistive"@,
    }
}

/// The URL that opens the system settings at `section`.
pub fn privacy_settings_url(section: PrivacySection) -> (u: &'static str)
    ensures
        u@ == privacy_url(section),
{
    match section {
        PrivacySection::ScreenCapture => "x-apple.systempreferences:com.apple.preference.security?Privacy_ScreenCapture",
        PrivacySection::Microphone => "x-apple.systempreferences:com.apple.preference.security?Privacy_Microphone",
        PrivacySection::Accessibility => "x-apple.systempreferences:com.apple.preference.security?Privacy_Assistive",
    }
}

} // verus!
