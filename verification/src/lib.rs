//! Windows vibrancy effects (Mica, Mica Alt, Acrylic, Blur), rounded corners,
//! and the choice of an effect by the version of Windows.
//!
//! Each effect is planned as a list of window calls (see `calls`) for the
//! version of the running system; the caller performs the calls through
//! `run::PlanRun`, which stops at the first failure.

use vstd::prelude::*;

use raw_window_handle::{HandleError, RawWindowHandle};

pub mod calls;
pub mod error;
pub mod laws;
pub mod run;
pub mod windows;

pub use crate::error::Error;

use crate::calls::{plan_view, Plan, WindowCall};
use crate::windows::{
    current_os_version, spec_apply_acrylic, spec_apply_best_effect, spec_apply_blur,
    spec_apply_mica, spec_apply_rounded_corners, spec_apply_tabbed, spec_clear_acrylic,
    spec_clear_all_effects, spec_clear_blur, spec_clear_mica, spec_clear_tabbed, OsVersionParts,
};

verus! {

/// A tuple of RGBA colors. Each value has minimum of 0 and maximum of 255.
pub type Color = (u8, u8, u8, u8);

/// The visual effect to apply to a window.
#[derive(Debug, Clone, Copy, PartialEq, Eq, Structural)]
pub enum Effect {
    /// Blur effect (Windows 7 / 10 v1809+)
    Blur,
    /// Acrylic effect (Windows 10 v1809+)
    Acrylic,
    /// Mica effect (Windows 11)
    Mica,
    /// Mica Alt / Tabbed effect (Windows 11 build 22523+)
    Tabbed,
    /// No effect (clear/transparent)
    Clear,
}

/// Corner preference for window rounded corners (Windows 11+).
#[derive(Debug, Clone, Copy, PartialEq, Eq, Structural)]
pub enum CornerPreference {
    /// System default
    Default,
    /// No rounding
    Square,
    /// Standard rounded corners
    Round,
    /// Small rounded corners
    RoundSmall,
}

impl CornerPreference {
    /// The `DWM_WINDOW_CORNER_PREFERENCE` number of this preference.
    pub open spec fn spec_value(self) -> u32 {
        match self {
            CornerPreference::Default => 0,
            CornerPreference::Square => 1,
            CornerPreference::Round => 2,
            CornerPreference::RoundSmall => 3,
        }
    }

    /// The `DWM_WINDOW_CORNER_PREFERENCE` number of this preference.
    pub fn value(self) -> (v: u32)
        ensures
            v == self.spec_value(),
    {
        match self {
            CornerPreference::Default => 0,
            CornerPreference::Square => 1,
            CornerPreference::Round => 2,
            CornerPreference::RoundSmall => 3,
        }
    }
}

// ── Window handles ──────────────────────────────────────────────────

/// A raw window handle of `raw-window-handle`.
#[verifier::external_type_specification]
#[verifier::external_body]
pub struct ExRawWindowHandle(raw_window_handle::RawWindowHandle);

/// The `HWND` that a raw window handle carries: that of a Win32 handle,
/// none for every other kind of handle.
pub uninterp spec fn win32_hwnd_of(handle: RawWindowHandle) -> Option<isize>;

/// The `HWND` of a `RawWindowHandle::Win32` handle (its `hwnd` field, a
/// `NonZeroIsize`, taken as `isize`), and none for every other kind of handle.
/// The result is a function of the handle alone, named `win32_hwnd_of`.
#[verifier::external_body]
fn win32_hwnd(handle: &RawWindowHandle) -> (r: Option<isize>)
    ensures
        r == win32_hwnd_of(*handle),
        r matches Some(h) ==> h != 0,
{
    match handle {
        RawWindowHandle::Win32(h) => Some(h.hwnd.get()),
        _ => None,
    }
}

/// The window's `HWND` if one was found, else the error for a window that is
/// not a Win32 window.
pub fn hwnd_from_lookup(found: Option<isize>) -> (r: Result<isize, Error>)
    ensures
        r == (match found {
            Some(h) => Ok(h),
            None => Err(Error::UnsupportedPlatform("Only Windows is supported.")),
        }),
{
    match found {
        Some(h) => Ok(h),
        None => Err(Error::UnsupportedPlatform("Only Windows is supported.")),
    }
}

/// The `HWND` of a window from what its `window_handle().as_raw()` gave:
/// the lookup's error as `NoWindowHandle`, a Win32 window's non-zero handle,
/// or `UnsupportedPlatform` for any other kind of window.
pub fn get_hwnd(handle: Result<RawWindowHandle, HandleError>) -> (r: Result<isize, Error>)
    ensures
        handle matches Err(e) ==> r == Err::<isize, Error>(Error::NoWindowHandle(e)),
        handle matches Ok(raw) ==> r == (match win32_hwnd_of(raw) {
            Some(h) => Ok::<isize, Error>(h),
            None => Err(Error::UnsupportedPlatform("Only Windows is supported.")),
        }),
        r matches Ok(h) ==> h != 0,
{
    match handle {
        Err(e) => Err(Error::NoWindowHandle(e)),
        Ok(raw) => hwnd_from_lookup(win32_hwnd(&raw)),
    }
}

// ── Individual effects ──────────────────────────────────────────────

/// Plans blur for the running system. Works on Windows 7, Windows 10 v1809+.
pub fn apply_blur(color: Option<Color>) -> (p: Plan)
    ensures
        exists|v: OsVersionParts| plan_view(p) == #[trigger] spec_apply_blur(v, color),
{
    let v = current_os_version();
    let p = windows::apply_blur(v, color);
    assert(plan_view(p) == spec_apply_blur(v, color));
    p
}

/// Plans clearing blur for the running system.
pub fn clear_blur() -> (p: Plan)
    ensures
        exists|v: OsVersionParts| plan_view(p) == #[trigger] spec_clear_blur(v),
{
    let v = current_os_version();
    let p = windows::clear_blur(v);
    assert(plan_view(p) == spec_clear_blur(v));
    p
}

/// Plans acrylic for the running system. Works on Windows 10 v1809+.
pub fn apply_acrylic(color: Option<Color>) -> (p: Plan)
    ensures
        exists|v: OsVersionParts| plan_view(p) == #[trigger] spec_apply_acrylic(v, color),
{
    let v = current_os_version();
    let p = windows::apply_acrylic(v, color);
    assert(plan_view(p) == spec_apply_acrylic(v, color));
    p
}

/// Plans clearing acrylic for the running system.
pub fn clear_acrylic() -> (p: Plan)
    ensures
        exists|v: OsVersionParts| plan_view(p) == #[trigger] spec_clear_acrylic(v),
{
    let v = current_os_version();
    let p = windows::clear_acrylic(v);
    assert(plan_view(p) == spec_clear_acrylic(v));
    p
}

/// Mica where the version has it, else acrylic without a tint color.
pub open spec fn spec_apply_mica_for_version(v: OsVersionParts, dark: Option<bool>) -> Result<Seq<WindowCall>, Error> {
    match spec_apply_mica(v, dark) {
        Err(Error::UnsupportedPlatformVersion(_)) => spec_apply_acrylic(v, None),
        other => other,
    }
}

/// Plans Mica for the given version; where Mica is missing (Windows 10) it
/// falls back to Acrylic.
pub fn apply_mica_for_version(version: OsVersionParts, dark: Option<bool>) -> (p: Plan)
    ensures
        plan_view(p) == spec_apply_mica_for_version(version, dark),
{
    match windows::apply_mica(version, dark) {
        Err(Error::UnsupportedPlatformVersion(_)) => windows::apply_acrylic(version, None),
        other => other,
    }
}

/// Plans Mica for the running system. Works on Windows 11.
///
/// On Windows 10, falls back to Acrylic automatically.
pub fn apply_mica(dark: Option<bool>) -> (p: Plan)
    ensures
        exists|v: OsVersionParts| plan_view(p) == #[trigger] spec_apply_mica_for_version(v, dark),
{
    let v = current_os_version();
    let p = apply_mica_for_version(v, dark);
    assert(plan_view(p) == spec_apply_mica_for_version(v, dark));
    p
}

/// Plans clearing Mica for the running system.
pub fn clear_mica() -> (p: Plan)
    ensures
        exists|v: OsVersionParts| plan_view(p) == #[trigger] spec_clear_mica(v),
{
    let v = current_os_version();
    let p = windows::clear_mica(v);
    assert(plan_view(p) == spec_clear_mica(v));
    p
}

/// Mica Alt where the version has it, else Mica, else acrylic without a tint
/// color.
pub open spec fn spec_apply_tabbed_for_version(v: OsVersionParts, dark: Option<bool>) -> Result<Seq<WindowCall>, Error> {
    match spec_apply_tabbed(v, dark) {
        Err(Error::UnsupportedPlatformVersion(_)) => match spec_apply_mica(v, dark) {
            Err(Error::UnsupportedPlatformVersion(_)) => spec_apply_acrylic(v, None),
            other => other,
        },
        other => other,
    }
}

/// Plans Mica Alt for the given version, falling back to Mica, then Acrylic.
pub fn apply_tabbed_for_version(version: OsVersionParts, dark: Option<bool>) -> (p: Plan)
    ensures
        plan_view(p) == spec_apply_tabbed_for_version(version, dark),
{
    match windows::apply_tabbed(version, dark) {
        Err(Error::UnsupportedPlatformVersion(_)) => match windows::apply_mica(version, dark) {
            Err(Error::UnsupportedPlatformVersion(_)) => windows::apply_acrylic(version, None),
            other => other,
        },
        other => other,
    }
}

/// Plans Mica Alt (Tabbed) for the running system. Works on Windows 11 build 22523+.
///
/// On older Windows, falls back to Mica, then Acrylic.
pub fn apply_tabbed(dark: Option<bool>) -> (p: Plan)
    ensures
        exists|v: OsVersionParts| plan_view(p) == #[trigger] spec_apply_tabbed_for_version(v, dark),
{
    let v = current_os_version();
    let p = apply_tabbed_for_version(v, dark);
    assert(plan_view(p) == spec_apply_tabbed_for_version(v, dark));
    p
}

/// Plans clearing Mica Alt for the running system.
pub fn clear_tabbed() -> (p: Plan)
    ensures
        exists|v: OsVersionParts| plan_view(p) == #[trigger] spec_clear_tabbed(v),
{
    let v = current_os_version();
    let p = windows::clear_tabbed(v);
    assert(plan_view(p) == spec_clear_tabbed(v));
    p
}

// ── Rounded corners ─────────────────────────────────────────────────

/// Plans setting the corner preference for the running system. Works on Windows 11.
pub fn apply_rounded_corners(preference: CornerPreference) -> (p: Plan)
    ensures
        exists|v: OsVersionParts| plan_view(p) == #[trigger] spec_apply_rounded_corners(v, preference),
{
    let v = current_os_version();
    let p = windows::apply_rounded_corners(v, preference);
    assert(plan_view(p) == spec_apply_rounded_corners(v, preference));
    p
}

// ── Smart helpers ───────────────────────────────────────────────────

/// Plans the best available effect for the running system, and returns the
/// effect chosen:
///
/// - Windows 11 build 22523+: Tabbed (Mica Alt)
/// - Windows 11 build 22000+: Mica
/// - Windows 10 v1809+: Acrylic
/// - Windows 7: Blur
pub fn apply_best_effect(dark: Option<bool>) -> (r: (Effect, Vec<WindowCall>))
    ensures
        exists|v: OsVersionParts| #[trigger] v.best_effect() == r.0 && r.1@ == spec_apply_best_effect(v, dark),
{
    let v = current_os_version();
    let r = windows::apply_best_effect(v, dark);
    assert(v.best_effect() == r.0);
    r
}

/// The result of applying the best effect: the effect chosen once its calls
/// succeeded, else the error of the call that failed.
pub fn best_effect_result(effect: Effect, ran: Result<(), Error>) -> (r: Result<Effect, Error>)
    ensures
        r == (match ran {
            Ok(()) => Ok::<Effect, Error>(effect),
            Err(e) => Err(e),
        }),
{
    match ran {
        Ok(()) => Ok(effect),
        Err(e) => Err(e),
    }
}

/// Returns the best effect supported by the current OS without applying it.
pub fn best_supported_effect() -> (e: Effect)
    ensures
        exists|v: OsVersionParts| #[trigger] v.best_effect() == e,
{
    windows::best_supported_effect()
}

/// Returns whether an effect is directly supported by the current OS.
///
/// This reports direct support only: for example, `Effect::Mica` gives
/// `false` on Windows 10 even though `apply_mica` can fall back to Acrylic.
pub fn is_effect_supported(effect: Effect) -> (r: bool)
    ensures
        exists|v: OsVersionParts| #[trigger] v.supports(effect) == r,
{
    windows::is_effect_supported(effect)
}

/// Plans clearing any vibrancy effect on the running system.
pub fn clear_all_effects() -> (calls: Vec<WindowCall>)
    ensures
        exists|v: OsVersionParts| calls@ == #[trigger] spec_clear_all_effects(v),
{
    let v = current_os_version();
    let calls = windows::clear_all_effects(v);
    assert(calls@ == spec_clear_all_effects(v));
    calls
}

/// Switching effects: everything is cleared first, whatever that gives, then
/// the new effect is applied.
pub struct SwitchPlan {
    /// The calls that clear every effect; their failures are ignored.
    pub clear: Vec<WindowCall>,
    /// The calls that apply the new effect.
    pub apply: Plan,
}

/// The new effect's calls when switching: Mica and Tabbed fall back as
/// `apply_mica` and `apply_tabbed` do, but the fallback acrylic keeps the
/// given tint color.
pub open spec fn spec_switch_apply(v: OsVersionParts, effect: Effect, dark: Option<bool>, color: Option<Color>) -> Result<Seq<WindowCall>, Error> {
    match effect {
        Effect::Blur => spec_apply_blur(v, color),
        Effect::Acrylic => spec_apply_acrylic(v, color),
        Effect::Mica => match spec_apply_mica(v, dark) {
            Err(Error::UnsupportedPlatformVersion(_)) => spec_apply_acrylic(v, color),
            other => other,
        },
        Effect::Tabbed => match spec_apply_tabbed(v, dark) {
            Err(Error::UnsupportedPlatformVersion(_)) => match spec_apply_mica(v, dark) {
                Err(Error::UnsupportedPlatformVersion(_)) => spec_apply_acrylic(v, color),
                other => other,
            },
            other => other,
        },
        Effect::Clear => Ok(Seq::empty()),
    }
}

/// Plans switching to the effect on the given version.
pub fn switch_effect_for_version(
    version: OsVersionParts,
    effect: Effect,
    dark: Option<bool>,
    color: Option<Color>,
) -> (s: SwitchPlan)
    ensures
        s.clear@ == spec_clear_all_effects(version),
        plan_view(s.apply) == spec_switch_apply(version, effect, dark, color),
{
    let clear = windows::clear_all_effects(version);
    let apply = match effect {
        Effect::Blur => windows::apply_blur(version, color),
        Effect::Acrylic => windows::apply_acrylic(version, color),
        Effect::Mica => match windows::apply_mica(version, dark) {
            Err(Error::UnsupportedPlatformVersion(_)) => windows::apply_acrylic(version, color),
            other => other,
        },
        Effect::Tabbed => match windows::apply_tabbed(version, dark) {
            Err(Error::UnsupportedPlatformVersion(_)) => match windows::apply_mica(version, dark) {
                Err(Error::UnsupportedPlatformVersion(_)) => windows::apply_acrylic(version, color),
                other => other,
            },
            other => other,
        },
        Effect::Clear => Ok(Vec::new()),
    };
    SwitchPlan { clear, apply }
}

/// The result of switching effects: that of applying the new effect alone,
/// whatever clearing the old ones gave.
pub fn switch_result(cleared: Result<(), Error>, applied: Result<(), Error>) -> (r: Result<(), Error>)
    ensures
        r == applied,
{
    applied
}

/// Plans switching from any current effect to a new one without flicker on
/// the running system.
///
/// Clears all existing effects first, then applies the requested one.
pub fn switch_effect(effect: Effect, dark: Option<bool>, color: Option<Color>) -> (s: SwitchPlan)
    ensures
        exists|v: OsVersionParts|
            s.clear@ == #[trigger] spec_clear_all_effects(v) && plan_view(s.apply) == spec_switch_apply(
                v,
                effect,
                dark,
                color,
            ),
{
    let v = current_os_version();
    let s = switch_effect_for_version(v, effect, dark, color);
    assert(s.clear@ == spec_clear_all_effects(v));
    s
}

} // verus!
