//! The visual effect of the main window.

use vstd::prelude::*;
use crate::fatal::Fatal;

verus! {

/// The label under which the runtime knows the window that gets the effect.
pub const MAIN_WINDOW: &'static str = "main";

/// The family of the operating system that the shell runs on.
#[derive(Clone, Copy, Debug, PartialEq, Eq, Structural)]
pub enum Platform {
    MacOs,
    Windows,
    /// Any other system. Its compositor decides on translucency by itself.
    Other,
}

/// A colour with its opacity, each part from 0 to 255.
#[derive(Clone, Copy, Debug, PartialEq, Eq, Structural)]
pub struct Tint {
    pub red: u8,
    pub green: u8,
    pub blue: u8,
    pub alpha: u8,
}

/// A translucency that a compositor draws behind a window.
#[derive(Clone, Copy, Debug, PartialEq, Eq, Structural)]
pub enum WindowEffect {
    /// The blurred backdrop of a heads-up display.
    Hud,
    /// An acrylic backdrop over a tint.
    Acrylic { tint: Tint },
}

/// The tint of the acrylic backdrop: white, one step short of opaque.
pub open spec fn acrylic_tint() -> Tint {
    Tint { red: 255, green: 255, blue: 255, alpha: 254 }
}

impl WindowEffect {
    /// The one platform whose compositor offers this effect.
    pub open spec fn platform(self) -> Platform {
        match self {
            WindowEffect::Hud => Platform::MacOs,
            WindowEffect::Acrylic { .. } => Platform::Windows,
        }
    }
}

/// The effect that the main window gets on `platform`, if it gets one.
pub open spec fn effect_on(platform: Platform) -> Option<WindowEffect> {
    match platform {
        Platform::MacOs => Some(WindowEffect::Hud),
        Platform::Windows => Some(WindowEffect::Acrylic { tint: acrylic_tint() }),
        Platform::Other => None,
    }
}

/// Chooses the effect to apply to the main window at startup. `None` means
/// that the window is left as it is.
pub fn startup_effect(platform: Platform) -> (effect: Option<WindowEffect>)
    ensures
        effect == effect_on(platform),
{
    match platform {
        Platform::MacOs => Some(WindowEffect::Hud),
        Platform::Windows => Some(
            WindowEffect::Acrylic { tint: Tint { red: 255, green: 255, blue: 255, alpha: 254 } },
        ),
        Platform::Other => None,
    }
}

/// How applying `effect` ends, where `applied` says whether the platform
/// took it: there is no other effect to fall back on and no second attempt.
pub open spec fn effect_end(effect: WindowEffect, applied: bool) -> Result<(), Fatal> {
    if applied {
        Ok(())
    } else {
        Err(Fatal::UnsupportedPlatform { effect })
    }
}

/// Ends the startup step that applies `effect`, on the host's word of
/// whether the platform took it.
pub fn effect_outcome(effect: WindowEffect, applied: bool) -> (end: Result<(), Fatal>)
    ensures
        end == effect_end(effect, applied),
{
    if applied {
        Ok(())
    } else {
        Err(Fatal::UnsupportedPlatform { effect })
    }
}

/// On every platform the window gets at most one effect, and only one that
/// this platform offers; on a platform that offers none, none is applied.
/// An effect that was chosen and that the platform then does not take ends
/// startup fatally: it is neither passed over nor replaced by another.
pub proof fn lemma_effect_fits_platform(platform: Platform)
    ensures
        effect_on(platform) is None <==> platform == Platform::Other,
        effect_on(platform) matches Some(effect) ==> effect.platform() == platform,
        effect_on(platform) matches Some(effect) ==> effect_end(effect, false) == Err::<(), Fatal>(
            Fatal::UnsupportedPlatform { effect },
        ),
{
}

} // verus!
