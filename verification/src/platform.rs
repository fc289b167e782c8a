//! Operating systems and the platform the application runs as.

use vstd::prelude::*;

verus! {

/// Operating system the application runs on.
#[derive(Clone, Copy, PartialEq, Eq, Debug, Structural)]
pub enum Os {
    Windows,
    MacOs,
    Linux,
    Android,
    Ios,
    Web,
    Unknown,
}

impl Os {
    pub fn is_desktop(&self) -> (desktop: bool)
        ensures
            desktop == (*self == Os::Windows || *self == Os::MacOs || *self == Os::Linux),
    {
        matches!(self, Os::Windows | Os::MacOs | Os::Linux)
    }

    pub fn is_mobile(&self) -> (mobile: bool)
        ensures
            mobile == (*self == Os::Android || *self == Os::Ios),
    {
        matches!(self, Os::Android | Os::Ios)
    }

    pub fn supports_vr(&self) -> (vr: bool)
        ensures
            vr == (*self == Os::Windows || *self == Os::Linux || *self == Os::Android),
    {
        matches!(self, Os::Windows | Os::Linux | Os::Android)
    }
}

/// Active platform type.
#[derive(Clone, Copy, PartialEq, Eq, Debug, Structural)]
pub enum Platform {
    Desktop,
    Vr,
    WebXr,
}

impl Default for Platform {
    fn default() -> (platform: Self)
        ensures
            platform == Platform::Desktop,
    {
        Platform::Desktop
    }
}

impl Platform {
    /// Picks the best platform for `os` among those the application was
    /// built with: VR where it was built in and the system supports it, else
    /// WebXR where that was built in for the browser, else the desktop.
    pub fn auto_detect(os: &Os, vr_built: bool, webxr_built: bool) -> (platform: Self)
        ensures
            platform == if vr_built && (*os == Os::Windows || *os == Os::Linux || *os
                == Os::Android) {
                Platform::Vr
            } else if webxr_built {
                Platform::WebXr
            } else {
                Platform::Desktop
            },
    {
        if vr_built && os.supports_vr() {
            Platform::Vr
        } else if webxr_built {
            Platform::WebXr
        } else {
            Platform::Desktop
        }
    }
}

} // verus!
