//! Render options resolved from command-line flags.
//!
//! The command line itself is read outside this crate; what is verified here
//! is the resolution of the parsed flags into concrete render options: the
//! default 800x600 image, the draft / HD / 4K presets with their priority,
//! explicit width and height overriding any preset, and the draft mode's cap
//! on the scene's recursion depth.

use vstd::prelude::*;

verus! {

/// The options one render invocation runs with.
pub struct RenderOptions {
    pub width: u32,
    pub height: u32,
    pub max_recursion_depth: Option<u32>,
}

impl Default for RenderOptions {
    /// An 800x600 image with no extra cap on recursion depth.
    fn default() -> (r: RenderOptions)
        ensures
            r.width == 800,
            r.height == 600,
            r.max_recursion_depth is None,
    {
        RenderOptions { width: 800, height: 600, max_recursion_depth: None }
    }
}

impl RenderOptions {
    /// Resolves the parsed command-line flags into render options.
    ///
    /// Draft mode wins over the HD preset, which wins over the 4K preset;
    /// an explicit width or height overrides whatever a preset chose; and
    /// only draft mode caps the recursion depth, at four levels.
    pub fn from_flags(
        draft: bool,
        hd: bool,
        four_k: bool,
        width: Option<u32>,
        height: Option<u32>,
    ) -> (r: RenderOptions)
        ensures
            r.max_recursion_depth == (if draft {
                Some(4u32)
            } else {
                None::<u32>
            }),
            r.width == (if width is Some {
                width->0
            } else if !draft && hd {
                1920u32
            } else if !draft && !hd && four_k {
                3840u32
            } else {
                800u32
            }),
            r.height == (if height is Some {
                height->0
            } else if !draft && hd {
                1080u32
            } else if !draft && !hd && four_k {
                2160u32
            } else {
                600u32
            }),
    {
        let mut options = RenderOptions::default();

        if draft {
            options.max_recursion_depth = Some(4);
        } else if hd {
            options.width = 1920;
            options.height = 1080;
        } else if four_k {
            options.width = 3840;
            options.height = 2160;
        }

        if let Some(w) = width {
            options.width = w;
        }

        if let Some(h) = height {
            options.height = h;
        }

        options
    }
}

/// The recursion depth a render runs with: the scene's own bound, lowered
/// to the options' cap when one is given and smaller.
pub fn effective_recursion_depth(scene_depth: u32, cap: Option<u32>) -> (r: u32)
    ensures
        r == (if cap is Some && cap->0 < scene_depth {
            cap->0
        } else {
            scene_depth
        }),
{
    match cap {
        Some(limit) => if limit < scene_depth {
            limit
        } else {
            scene_depth
        },
        None => scene_depth,
    }
}

} // verus!
