//! The fixed startup configuration of the window and GPU context.
//!
//! The window size, title and target API profile are constants chosen at
//! startup; the loop core never reconfigures them. Collecting them in one
//! value keeps the driver layer's bootstrap free of drifting copies.

use vstd::prelude::*;

verus! {

/// The startup configuration the driver layer consumes: window dimensions
/// and title, the GPU API version to request, and the profile flags.
#[derive(Debug)]
pub struct ContextConfig {
    pub width: u32,
    pub height: u32,
    pub title: String,
    pub gl_major: u32,
    pub gl_minor: u32,
    pub core_profile: bool,
    pub forward_compat: bool,
}

impl ContextConfig {
    /// A window has positive dimensions.
    pub open spec fn wf(&self) -> bool {
        &&& 0 < self.width
        &&& 0 < self.height
    }

    /// The harness's fixed configuration: an 800 by 600 window, version 4.5
    /// of the API, core profile, forward compatible.
    pub fn standard() -> (c: ContextConfig)
        ensures
            c.wf(),
            c.width == 800,
            c.height == 600,
            c.title@ == "OpenGL Rendering"@,
            c.gl_major == 4,
            c.gl_minor == 5,
            c.core_profile,
            c.forward_compat,
    {
        ContextConfig {
            width: 800,
            height: 600,
            title: "OpenGL Rendering".to_owned(),
            gl_major: 4,
            gl_minor: 5,
            core_profile: true,
            forward_compat: true,
        }
    }
}

} // verus!
