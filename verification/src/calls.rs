//! The window calls that an effect is made of, as plain values.
//!
//! Planning an effect yields a list of these calls; the caller performs them in
//! order against the window and reports each outcome back (see `run`).

use vstd::prelude::*;

use crate::error::Error;
use crate::windows::{bool_result, hresult};
use crate::Color;

verus! {

/// A `DWMWINDOWATTRIBUTE` that the library sets.
#[derive(Debug, Clone, Copy, PartialEq, Eq, Structural)]
pub enum DwmAttribute {
    /// `DWMWA_USE_IMMERSIVE_DARK_MODE`
    UseImmersiveDarkMode,
    /// `DWMWA_WINDOW_CORNER_PREFERENCE`
    WindowCornerPreference,
    /// `DWMWA_SYSTEMBACKDROP_TYPE`
    SystemBackdropType,
    /// The undocumented `DWMWA_MICA_EFFECT` of early Windows 11 builds.
    MicaEffect,
}

impl DwmAttribute {
    pub open spec fn spec_id(self) -> u32 {
        match self {
            DwmAttribute::UseImmersiveDarkMode => 20,
            DwmAttribute::WindowCornerPreference => 33,
            DwmAttribute::SystemBackdropType => 38,
            DwmAttribute::MicaEffect => 1029,
        }
    }

    /// The attribute's number as `DwmSetWindowAttribute` takes it.
    pub fn id(self) -> (r: u32)
        ensures
            r == self.spec_id(),
    {
        match self {
            DwmAttribute::UseImmersiveDarkMode => 20,
            DwmAttribute::WindowCornerPreference => 33,
            DwmAttribute::SystemBackdropType => 38,
            DwmAttribute::MicaEffect => 1029,
        }
    }

    pub open spec fn spec_function_name(self) -> &'static str {
        match self {
            DwmAttribute::UseImmersiveDarkMode => "DwmSetWindowAttribute(DWMWA_USE_IMMERSIVE_DARK_MODE)",
            DwmAttribute::WindowCornerPreference => "DwmSetWindowAttribute(DWMWA_WINDOW_CORNER_PREFERENCE)",
            DwmAttribute::SystemBackdropType => "DwmSetWindowAttribute(DWMWA_SYSTEMBACKDROP_TYPE)",
            DwmAttribute::MicaEffect => "DwmSetWindowAttribute(DWMWA_MICA_EFFECT)",
        }
    }

    /// The name under which a failed write of this attribute is reported.
    pub fn function_name(self) -> (r: &'static str)
        ensures
            r == self.spec_function_name(),
    {
        match self {
            DwmAttribute::UseImmersiveDarkMode => "DwmSetWindowAttribute(DWMWA_USE_IMMERSIVE_DARK_MODE)",
            DwmAttribute::WindowCornerPreference => "DwmSetWindowAttribute(DWMWA_WINDOW_CORNER_PREFERENCE)",
            DwmAttribute::SystemBackdropType => "DwmSetWindowAttribute(DWMWA_SYSTEMBACKDROP_TYPE)",
            DwmAttribute::MicaEffect => "DwmSetWindowAttribute(DWMWA_MICA_EFFECT)",
        }
    }
}

/// A `DWM_SYSTEMBACKDROP_TYPE`.
#[derive(Debug, Clone, Copy, PartialEq, Eq, Structural)]
pub enum BackdropType {
    /// `DWMSBT_DISABLE`
    Disable,
    /// `DWMSBT_MAINWINDOW` (Mica)
    MainWindow,
    /// `DWMSBT_TRANSIENTWINDOW` (Acrylic)
    TransientWindow,
    /// `DWMSBT_TABBEDWINDOW` (Mica Alt)
    TabbedWindow,
}

impl BackdropType {
    pub open spec fn spec_value(self) -> u32 {
        match self {
            BackdropType::Disable => 1,
            BackdropType::MainWindow => 2,
            BackdropType::TransientWindow => 3,
            BackdropType::TabbedWindow => 4,
        }
    }

    /// The number that `DWMWA_SYSTEMBACKDROP_TYPE` is set to.
    pub fn value(self) -> (r: u32)
        ensures
            r == self.spec_value(),
    {
        match self {
            BackdropType::Disable => 1,
            BackdropType::MainWindow => 2,
            BackdropType::TransientWindow => 3,
            BackdropType::TabbedWindow => 4,
        }
    }
}

/// An `ACCENT_STATE` of `SetWindowCompositionAttribute`.
#[derive(Debug, Clone, Copy, PartialEq, Eq, Structural)]
pub enum AccentState {
    /// `ACCENT_DISABLED`
    Disabled,
    /// `ACCENT_ENABLE_BLURBEHIND`
    EnableBlurBehind,
    /// `ACCENT_ENABLE_ACRYLICBLURBEHIND`
    EnableAcrylicBlurBehind,
}

impl AccentState {
    pub open spec fn spec_value(self) -> u32 {
        match self {
            AccentState::Disabled => 0,
            AccentState::EnableBlurBehind => 3,
            AccentState::EnableAcrylicBlurBehind => 4,
        }
    }

    /// The state's number in an `ACCENT_POLICY`.
    pub fn value(self) -> (r: u32)
        ensures
            r == self.spec_value(),
    {
        match self {
            AccentState::Disabled => 0,
            AccentState::EnableBlurBehind => 3,
            AccentState::EnableAcrylicBlurBehind => 4,
        }
    }
}

/// The `ACCENT_POLICY` record handed to `SetWindowCompositionAttribute`.
#[derive(Debug, Clone, Copy, PartialEq, Eq, Structural)]
pub struct AccentPolicy {
    pub accent_state: u32,
    pub accent_flags: u32,
    pub gradient_color: u32,
    pub animation_id: u32,
}

/// The color that a composition call paints with: no color means transparent
/// black, and acrylic never gets a fully transparent tint (alpha 0 becomes 1).
pub open spec fn effective_color(state: AccentState, color: Option<Color>) -> Color {
    let c = match color {
        Some(c) => c,
        None => (0u8, 0u8, 0u8, 0u8),
    };
    if state == AccentState::EnableAcrylicBlurBehind && c.3 == 0 {
        (c.0, c.1, c.2, 1u8)
    } else {
        c
    }
}

/// A color packed as `0xAABBGGRR`.
pub open spec fn packed_color(c: Color) -> int {
    c.0 + 256 * c.1 + 65536 * c.2 + 16777216 * c.3
}

pub open spec fn spec_accent_policy(state: AccentState, color: Option<Color>) -> AccentPolicy {
    AccentPolicy {
        accent_state: state.spec_value(),
        accent_flags: if state == AccentState::EnableAcrylicBlurBehind { 0 } else { 2 },
        gradient_color: packed_color(effective_color(state, color)) as u32,
        animation_id: 0,
    }
}

/// Builds the accent policy for a composition call.
pub fn accent_policy(state: AccentState, color: Option<Color>) -> (p: AccentPolicy)
    ensures
        p == spec_accent_policy(state, color),
        p.gradient_color as int == packed_color(effective_color(state, color)),
{
    let c: Color = match color {
        Some(c) => c,
        None => (0u8, 0u8, 0u8, 0u8),
    };
    let is_acrylic: bool = match state {
        AccentState::EnableAcrylicBlurBehind => true,
        _ => false,
    };
    let alpha: u8 = if is_acrylic && c.3 == 0 { 1 } else { c.3 };
    let r: u32 = c.0 as u32;
    let g: u32 = c.1 as u32;
    let b: u32 = c.2 as u32;
    let a: u32 = alpha as u32;
    let gradient: u32 = r | (g << 8) | (b << 16) | (a << 24);
    assert(gradient == r + 256 * g + 65536 * b + 16777216 * a) by (bit_vector)
        requires
            gradient == r | (g << 8) | (b << 16) | (a << 24),
            r < 256,
            g < 256,
            b < 256,
            a < 256,
    ;
    AccentPolicy {
        accent_state: state.value(),
        accent_flags: if is_acrylic { 0 } else { 2 },
        gradient_color: gradient,
        animation_id: 0,
    }
}

/// One call against the window.
#[derive(Debug, Clone, Copy, PartialEq, Eq, Structural)]
pub enum WindowCall {
    /// `DwmSetWindowAttribute` with a 32-bit value.
    SetAttribute { attribute: DwmAttribute, value: u32 },
    /// `DwmEnableBlurBehindWindow` with `DWM_BB_ENABLE` and the given switch.
    BlurBehind { enable: bool },
    /// `SetWindowCompositionAttribute` with `WCA_ACCENT_POLICY`.
    Composition { policy: AccentPolicy },
}

impl WindowCall {
    pub open spec fn spec_function_name(self) -> &'static str {
        match self {
            WindowCall::SetAttribute { attribute, .. } => attribute.spec_function_name(),
            WindowCall::BlurBehind { .. } => "DwmEnableBlurBehindWindow",
            WindowCall::Composition { .. } => "SetWindowCompositionAttribute",
        }
    }

    /// The name under which a failure of this call is reported.
    pub fn function_name(&self) -> (r: &'static str)
        ensures
            r == self.spec_function_name(),
    {
        match self {
            WindowCall::SetAttribute { attribute, .. } => attribute.function_name(),
            WindowCall::BlurBehind { .. } => "DwmEnableBlurBehindWindow",
            WindowCall::Composition { .. } => "SetWindowCompositionAttribute",
        }
    }
}

/// Writes a 32-bit DWM attribute.
pub open spec fn set_attribute(attribute: DwmAttribute, value: u32) -> WindowCall {
    WindowCall::SetAttribute { attribute, value }
}

/// A composition call with the given accent state and color.
pub open spec fn spec_composition(state: AccentState, color: Option<Color>) -> WindowCall {
    WindowCall::Composition { policy: spec_accent_policy(state, color) }
}

/// Builds a composition call with the given accent state and color.
pub fn composition(state: AccentState, color: Option<Color>) -> (c: WindowCall)
    ensures
        c == spec_composition(state, color),
{
    WindowCall::Composition { policy: accent_policy(state, color) }
}

/// What performing a call gave back.
#[derive(Debug, Clone, Copy, PartialEq, Eq, Structural)]
pub enum CallOutcome {
    /// The `HRESULT` that a DWM function returned.
    Hresult(i32),
    /// The `BOOL` that the function returned, with the thread's last error
    /// code read right after the call.
    Bool { result: i32, last_error: u32 },
    /// The function could not be resolved at run time.
    Missing,
}

pub open spec fn spec_outcome_result(call: WindowCall, outcome: CallOutcome) -> Result<(), Error> {
    let function = call.spec_function_name();
    match outcome {
        CallOutcome::Hresult(code) => if code >= 0 {
            Ok(())
        } else {
            Err(Error::WindowsApi { function, code })
        },
        CallOutcome::Bool { result, last_error } => if result != 0 {
            Ok(())
        } else {
            Err(Error::WindowsApi { function, code: last_error as i32 })
        },
        CallOutcome::Missing => Err(Error::MissingFunction(function)),
    }
}

/// Whether a performed call succeeded, and the error it is reported as if not.
pub fn outcome_result(call: &WindowCall, outcome: CallOutcome) -> (r: Result<(), Error>)
    ensures
        r == spec_outcome_result(*call, outcome),
{
    let function = call.function_name();
    match outcome {
        CallOutcome::Hresult(code) => hresult(code, function),
        CallOutcome::Bool { result, last_error } => bool_result(result, function, last_error),
        CallOutcome::Missing => Err(Error::MissingFunction(function)),
    }
}

} // verus!

verus! {

/// The calls that make up an effect, or why the effect cannot be had.
pub type Plan = Result<Vec<WindowCall>, Error>;

/// A plan with its calls taken as a sequence.
pub open spec fn plan_view(p: Plan) -> Result<Seq<WindowCall>, Error> {
    match p {
        Ok(calls) => Ok(calls@),
        Err(e) => Err(e),
    }
}

} // verus!

verus! {

/// A setting of the window that the calls write.
#[derive(Debug, Clone, Copy, PartialEq, Eq, Structural)]
pub enum WindowSlot {
    /// A DWM attribute.
    Attribute(DwmAttribute),
    /// Whether DWM blur behind is on (1) or off (0).
    BlurBehind,
    /// The accent state of the composition attribute.
    Accent,
}

/// The setting a call writes, and the number it writes there.
pub open spec fn written(call: WindowCall) -> (WindowSlot, u32) {
    match call {
        WindowCall::SetAttribute { attribute, value } => (WindowSlot::Attribute(attribute), value),
        WindowCall::BlurBehind { enable } => (WindowSlot::BlurBehind, if enable { 1u32 } else { 0u32 }),
        WindowCall::Composition { policy } => (WindowSlot::Accent, policy.accent_state),
    }
}

/// The window's settings after the calls, made in order, each one succeeding;
/// a later write to a setting replaces an earlier one.
pub open spec fn settings_after(settings: Map<WindowSlot, u32>, calls: Seq<WindowCall>) -> Map<WindowSlot, u32>
    decreases calls.len(),
{
    if calls.len() == 0 {
        settings
    } else {
        settings_after(
            settings.insert(written(calls[0]).0, written(calls[0]).1),
            calls.drop_first(),
        )
    }
}

/// The number that turns a setting off: dark mode, the Mica attribute, blur
/// behind and the accent state 0; the backdrop type `DWMSBT_DISABLE`.
pub open spec fn off_value(slot: WindowSlot) -> u32 {
    match slot {
        WindowSlot::Attribute(DwmAttribute::SystemBackdropType) => BackdropType::Disable.spec_value(),
        _ => 0,
    }
}

} // verus!
