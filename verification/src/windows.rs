//! What each effect takes on each Windows version.

use vstd::prelude::*;

use crate::calls::{
    composition, plan_view, set_attribute, spec_composition, AccentState, BackdropType,
    DwmAttribute, Plan, WindowCall,
};
use crate::error::Error;
use crate::{Color, CornerPreference, Effect};

verus! {

/// The parts of the Windows version that decide which effects exist.
#[derive(Debug, Clone, Copy, PartialEq, Eq, Structural)]
pub struct OsVersionParts {
    pub major: u32,
    pub minor: u32,
    pub build: u32,
}

impl OsVersionParts {
    /// Windows 7 (NT 6.1): blur behind through DWM.
    pub open spec fn spec_is_win7(self) -> bool {
        spec_is_win7_version(self.major, self.minor)
    }

    /// Windows 10 v1809 and later: `SetWindowCompositionAttribute` effects.
    pub open spec fn spec_swca_supported(self) -> bool {
        self.build >= 17763
    }

    /// Windows 11 (build 22000) and later: the undocumented Mica attribute.
    pub open spec fn spec_undocumented_mica_supported(self) -> bool {
        self.build >= 22000
    }

    /// Windows 11 build 22523 and later: `DWMWA_SYSTEMBACKDROP_TYPE`.
    pub open spec fn spec_backdroptype_supported(self) -> bool {
        self.build >= 22523
    }

    /// The best effect this version supports directly.
    pub open spec fn best_effect(self) -> Effect {
        spec_best_supported_effect(self.major, self.minor, self.build)
    }

    /// Whether this version supports the effect directly.
    pub open spec fn supports(self, effect: Effect) -> bool {
        spec_is_effect_supported(effect, self.major, self.minor, self.build)
    }

    pub fn is_win7(self) -> (r: bool)
        ensures
            r == self.spec_is_win7(),
    {
        is_win7_version(self.major, self.minor)
    }

    pub fn is_at_least_build(self, build: u32) -> (r: bool)
        ensures
            r == (self.build >= build),
    {
        self.build >= build
    }

    pub fn is_swca_supported(self) -> (r: bool)
        ensures
            r == self.spec_swca_supported(),
    {
        self.is_at_least_build(17763)
    }

    pub fn is_undocumented_mica_supported(self) -> (r: bool)
        ensures
            r == self.spec_undocumented_mica_supported(),
    {
        self.is_at_least_build(22000)
    }

    pub fn is_backdroptype_supported(self) -> (r: bool)
        ensures
            r == self.spec_backdroptype_supported(),
    {
        self.is_at_least_build(22523)
    }
}

/// Reads the version of the running system through
/// `windows_version::OsVersion::current`, keeping major, minor and build.
/// Nothing is promised of the numbers: they are the machine's.
#[verifier::external_body]
pub(crate) fn current_os_version() -> (v: OsVersionParts) {
    let v = windows_version::OsVersion::current();
    OsVersionParts { major: v.major, minor: v.minor, build: v.build }
}

/// Whether the version numbers identify Windows 7 (NT 6.1).
pub open spec fn spec_is_win7_version(major: u32, minor: u32) -> bool {
    major == 6 && minor == 1
}

fn is_win7_version(major: u32, minor: u32) -> (r: bool)
    ensures
        r == spec_is_win7_version(major, minor),
{
    major == 6 && minor == 1
}

/// The best effect that a system of the given version supports directly.
pub open spec fn spec_best_supported_effect(major: u32, minor: u32, build: u32) -> Effect {
    if build >= 22523 {
        Effect::Tabbed
    } else if build >= 22000 {
        Effect::Mica
    } else if build >= 17763 {
        Effect::Acrylic
    } else if spec_is_win7_version(major, minor) {
        Effect::Blur
    } else {
        Effect::Clear
    }
}

/// Whether a system of the given version supports the effect directly,
/// without falling back to another one.
pub open spec fn spec_is_effect_supported(effect: Effect, major: u32, minor: u32, build: u32) -> bool {
    match effect {
        Effect::Clear => true,
        Effect::Blur => build >= 17763 || spec_is_win7_version(major, minor),
        Effect::Acrylic => build >= 17763,
        Effect::Mica => build >= 22000,
        Effect::Tabbed => build >= 22523,
    }
}

/// Picks the best effect for the given OS version.
pub fn best_supported_effect_for_version(major: u32, minor: u32, build: u32) -> (e: Effect)
    ensures
        e == spec_best_supported_effect(major, minor, build),
{
    if build >= 22523 {
        Effect::Tabbed
    } else if build >= 22000 {
        Effect::Mica
    } else if build >= 17763 {
        Effect::Acrylic
    } else if is_win7_version(major, minor) {
        Effect::Blur
    } else {
        Effect::Clear
    }
}

/// Whether the given OS version supports the effect directly.
pub fn is_effect_supported_for_version(effect: Effect, major: u32, minor: u32, build: u32) -> (r: bool)
    ensures
        r == spec_is_effect_supported(effect, major, minor, build),
{
    match effect {
        Effect::Clear => true,
        Effect::Blur => build >= 17763 || is_win7_version(major, minor),
        Effect::Acrylic => build >= 17763,
        Effect::Mica => build >= 22000,
        Effect::Tabbed => build >= 22523,
    }
}

/// The best effect that the running system supports.
pub fn best_supported_effect() -> (e: Effect)
    ensures
        exists|v: OsVersionParts| #[trigger] v.best_effect() == e,
{
    let v = current_os_version();
    let e = best_supported_effect_for_version(v.major, v.minor, v.build);
    assert(v.best_effect() == e);
    e
}

/// Whether the running system supports the effect directly.
pub fn is_effect_supported(effect: Effect) -> (r: bool)
    ensures
        exists|v: OsVersionParts| #[trigger] v.supports(effect) == r,
{
    let v = current_os_version();
    let r = is_effect_supported_for_version(effect, v.major, v.minor, v.build);
    assert(v.supports(effect) == r);
    r
}

/// An `HRESULT` taken as success (non-negative) or as a failure of `function`.
pub fn hresult(result: i32, function: &'static str) -> (r: Result<(), Error>)
    ensures
        r == (if result >= 0 {
            Ok::<(), Error>(())
        } else {
            Err(Error::WindowsApi { function, code: result })
        }),
{
    if result >= 0 {
        Ok(())
    } else {
        Err(Error::WindowsApi { function, code: result })
    }
}

/// A `BOOL` taken as success (non-zero) or as a failure of `function`, whose
/// code is the thread's last error read right after the call.
pub fn bool_result(result: i32, function: &'static str, last_error: u32) -> (r: Result<(), Error>)
    ensures
        r == (if result != 0 {
            Ok::<(), Error>(())
        } else {
            Err(Error::WindowsApi { function, code: last_error as i32 })
        }),
{
    if result != 0 {
        Ok(())
    } else {
        Err(Error::WindowsApi { function, code: last_error as i32 })
    }
}

} // verus!

verus! {

/// A plan of one call.
fn one_call(call: WindowCall) -> (calls: Vec<WindowCall>)
    ensures
        calls@ == seq![call],
{
    let mut calls: Vec<WindowCall> = Vec::new();
    calls.push(call);
    calls
}

/// A plan of two calls, in this order.
fn two_calls(first: WindowCall, second: WindowCall) -> (calls: Vec<WindowCall>)
    ensures
        calls@ == seq![first, second],
{
    let mut calls: Vec<WindowCall> = Vec::new();
    calls.push(first);
    calls.push(second);
    calls
}

/// `unwrap_or(false)` of the dark-mode switch, as the attribute's number.
pub open spec fn dark_value(dark: Option<bool>) -> u32 {
    if dark == Some(true) {
        1
    } else {
        0
    }
}

fn dark_mode_value(dark: Option<bool>) -> (r: u32)
    ensures
        r == dark_value(dark),
{
    match dark {
        Some(true) => 1,
        _ => 0,
    }
}

/// The calls that turn blur on, per version.
pub open spec fn spec_apply_blur(v: OsVersionParts, color: Option<Color>) -> Result<Seq<WindowCall>, Error> {
    if v.spec_is_win7() {
        Ok(seq![WindowCall::BlurBehind { enable: true }])
    } else if v.spec_swca_supported() {
        Ok(seq![spec_composition(AccentState::EnableBlurBehind, color)])
    } else {
        Err(Error::UnsupportedPlatformVersion(
            "\"apply_blur()\" is only available on Windows 7, Windows 10 v1809 or newer.",
        ))
    }
}

/// Plans the blur effect. Works on Windows 7, Windows 10 v1809+.
pub fn apply_blur(version: OsVersionParts, color: Option<Color>) -> (p: Plan)
    ensures
        plan_view(p) == spec_apply_blur(version, color),
{
    if version.is_win7() {
        Ok(one_call(WindowCall::BlurBehind { enable: true }))
    } else if version.is_swca_supported() {
        Ok(one_call(composition(AccentState::EnableBlurBehind, color)))
    } else {
        Err(Error::UnsupportedPlatformVersion(
            "\"apply_blur()\" is only available on Windows 7, Windows 10 v1809 or newer.",
        ))
    }
}

/// The calls that turn blur off, per version.
pub open spec fn spec_clear_blur(v: OsVersionParts) -> Result<Seq<WindowCall>, Error> {
    if v.spec_is_win7() {
        Ok(seq![WindowCall::BlurBehind { enable: false }])
    } else if v.spec_swca_supported() {
        Ok(seq![spec_composition(AccentState::Disabled, None)])
    } else {
        Err(Error::UnsupportedPlatformVersion(
            "\"clear_blur()\" is only available on Windows 7, Windows 10 v1809 or newer.",
        ))
    }
}

/// Plans clearing the blur effect.
pub fn clear_blur(version: OsVersionParts) -> (p: Plan)
    ensures
        plan_view(p) == spec_clear_blur(version),
{
    if version.is_win7() {
        Ok(one_call(WindowCall::BlurBehind { enable: false }))
    } else if version.is_swca_supported() {
        Ok(one_call(composition(AccentState::Disabled, None)))
    } else {
        Err(Error::UnsupportedPlatformVersion(
            "\"clear_blur()\" is only available on Windows 7, Windows 10 v1809 or newer.",
        ))
    }
}

/// The calls that turn acrylic on, per version.
pub open spec fn spec_apply_acrylic(v: OsVersionParts, color: Option<Color>) -> Result<Seq<WindowCall>, Error> {
    if v.spec_backdroptype_supported() {
        Ok(seq![set_attribute(DwmAttribute::SystemBackdropType, BackdropType::TransientWindow.spec_value())])
    } else if v.spec_swca_supported() {
        Ok(seq![spec_composition(AccentState::EnableAcrylicBlurBehind, color)])
    } else {
        Err(Error::UnsupportedPlatformVersion(
            "\"apply_acrylic()\" is only available on Windows 10 v1809 or newer.",
        ))
    }
}

/// Plans the acrylic effect. Works on Windows 10 v1809+.
pub fn apply_acrylic(version: OsVersionParts, color: Option<Color>) -> (p: Plan)
    ensures
        plan_view(p) == spec_apply_acrylic(version, color),
{
    if version.is_backdroptype_supported() {
        Ok(one_call(WindowCall::SetAttribute {
            attribute: DwmAttribute::SystemBackdropType,
            value: BackdropType::TransientWindow.value(),
        }))
    } else if version.is_swca_supported() {
        Ok(one_call(composition(AccentState::EnableAcrylicBlurBehind, color)))
    } else {
        Err(Error::UnsupportedPlatformVersion(
            "\"apply_acrylic()\" is only available on Windows 10 v1809 or newer.",
        ))
    }
}

/// The calls that turn acrylic off, per version.
pub open spec fn spec_clear_acrylic(v: OsVersionParts) -> Result<Seq<WindowCall>, Error> {
    if v.spec_backdroptype_supported() {
        Ok(seq![set_attribute(DwmAttribute::SystemBackdropType, BackdropType::Disable.spec_value())])
    } else if v.spec_swca_supported() {
        Ok(seq![spec_composition(AccentState::Disabled, None)])
    } else {
        Err(Error::UnsupportedPlatformVersion(
            "\"clear_acrylic()\" is only available on Windows 10 v1809 or newer.",
        ))
    }
}

/// Plans clearing the acrylic effect.
pub fn clear_acrylic(version: OsVersionParts) -> (p: Plan)
    ensures
        plan_view(p) == spec_clear_acrylic(version),
{
    if version.is_backdroptype_supported() {
        Ok(one_call(WindowCall::SetAttribute {
            attribute: DwmAttribute::SystemBackdropType,
            value: BackdropType::Disable.value(),
        }))
    } else if version.is_swca_supported() {
        Ok(one_call(composition(AccentState::Disabled, None)))
    } else {
        Err(Error::UnsupportedPlatformVersion(
            "\"clear_acrylic()\" is only available on Windows 10 v1809 or newer.",
        ))
    }
}

/// The calls that turn Mica on, per version: dark mode first, then the
/// backdrop type where it exists, else the undocumented Mica attribute.
pub open spec fn spec_apply_mica(v: OsVersionParts, dark: Option<bool>) -> Result<Seq<WindowCall>, Error> {
    if !v.spec_backdroptype_supported() && !v.spec_undocumented_mica_supported() {
        Err(Error::UnsupportedPlatformVersion("\"apply_mica()\" is only available on Windows 11."))
    } else if v.spec_backdroptype_supported() {
        Ok(seq![
            set_attribute(DwmAttribute::UseImmersiveDarkMode, dark_value(dark)),
            set_attribute(DwmAttribute::SystemBackdropType, BackdropType::MainWindow.spec_value()),
        ])
    } else {
        Ok(seq![
            set_attribute(DwmAttribute::UseImmersiveDarkMode, dark_value(dark)),
            set_attribute(DwmAttribute::MicaEffect, 1),
        ])
    }
}

/// Plans the Mica effect. Works on Windows 11.
pub fn apply_mica(version: OsVersionParts, dark: Option<bool>) -> (p: Plan)
    ensures
        plan_view(p) == spec_apply_mica(version, dark),
{
    let dark = dark_mode_value(dark);
    if !version.is_backdroptype_supported() && !version.is_undocumented_mica_supported() {
        return Err(Error::UnsupportedPlatformVersion("\"apply_mica()\" is only available on Windows 11."));
    }
    let dark_mode = WindowCall::SetAttribute { attribute: DwmAttribute::UseImmersiveDarkMode, value: dark };
    if version.is_backdroptype_supported() {
        Ok(two_calls(dark_mode, WindowCall::SetAttribute {
            attribute: DwmAttribute::SystemBackdropType,
            value: BackdropType::MainWindow.value(),
        }))
    } else {
        Ok(two_calls(dark_mode, WindowCall::SetAttribute { attribute: DwmAttribute::MicaEffect, value: 1 }))
    }
}

/// The calls that turn Mica off, per version.
pub open spec fn spec_clear_mica(v: OsVersionParts) -> Result<Seq<WindowCall>, Error> {
    if !v.spec_backdroptype_supported() && !v.spec_undocumented_mica_supported() {
        Err(Error::UnsupportedPlatformVersion("\"clear_mica()\" is only available on Windows 11."))
    } else if v.spec_backdroptype_supported() {
        Ok(seq![
            set_attribute(DwmAttribute::UseImmersiveDarkMode, 0),
            set_attribute(DwmAttribute::SystemBackdropType, BackdropType::Disable.spec_value()),
        ])
    } else {
        Ok(seq![
            set_attribute(DwmAttribute::UseImmersiveDarkMode, 0),
            set_attribute(DwmAttribute::MicaEffect, 0),
        ])
    }
}

/// Plans clearing the Mica effect.
pub fn clear_mica(version: OsVersionParts) -> (p: Plan)
    ensures
        plan_view(p) == spec_clear_mica(version),
{
    if !version.is_backdroptype_supported() && !version.is_undocumented_mica_supported() {
        return Err(Error::UnsupportedPlatformVersion("\"clear_mica()\" is only available on Windows 11."));
    }
    let dark_mode = WindowCall::SetAttribute { attribute: DwmAttribute::UseImmersiveDarkMode, value: 0 };
    if version.is_backdroptype_supported() {
        Ok(two_calls(dark_mode, WindowCall::SetAttribute {
            attribute: DwmAttribute::SystemBackdropType,
            value: BackdropType::Disable.value(),
        }))
    } else {
        Ok(two_calls(dark_mode, WindowCall::SetAttribute { attribute: DwmAttribute::MicaEffect, value: 0 }))
    }
}

/// The calls that turn Mica Alt on, per version.
pub open spec fn spec_apply_tabbed(v: OsVersionParts, dark: Option<bool>) -> Result<Seq<WindowCall>, Error> {
    if !v.spec_backdroptype_supported() {
        Err(Error::UnsupportedPlatformVersion(
            "\"apply_tabbed()\" is only available on Windows 11 build 22523+.",
        ))
    } else {
        Ok(seq![
            set_attribute(DwmAttribute::UseImmersiveDarkMode, dark_value(dark)),
            set_attribute(DwmAttribute::SystemBackdropType, BackdropType::TabbedWindow.spec_value()),
        ])
    }
}

/// Plans the Mica Alt (Tabbed) effect. Works on Windows 11 build 22523+.
pub fn apply_tabbed(version: OsVersionParts, dark: Option<bool>) -> (p: Plan)
    ensures
        plan_view(p) == spec_apply_tabbed(version, dark),
{
    let dark = dark_mode_value(dark);
    if !version.is_backdroptype_supported() {
        return Err(Error::UnsupportedPlatformVersion(
            "\"apply_tabbed()\" is only available on Windows 11 build 22523+.",
        ));
    }
    Ok(two_calls(
        WindowCall::SetAttribute { attribute: DwmAttribute::UseImmersiveDarkMode, value: dark },
        WindowCall::SetAttribute {
            attribute: DwmAttribute::SystemBackdropType,
            value: BackdropType::TabbedWindow.value(),
        },
    ))
}

/// The calls that turn Mica Alt off, per version.
pub open spec fn spec_clear_tabbed(v: OsVersionParts) -> Result<Seq<WindowCall>, Error> {
    if v.spec_backdroptype_supported() {
        Ok(seq![set_attribute(DwmAttribute::SystemBackdropType, BackdropType::Disable.spec_value())])
    } else {
        Err(Error::UnsupportedPlatformVersion(
            "\"clear_tabbed()\" is only available on Windows 11 build 22523+.",
        ))
    }
}

/// Plans clearing the Mica Alt effect.
pub fn clear_tabbed(version: OsVersionParts) -> (p: Plan)
    ensures
        plan_view(p) == spec_clear_tabbed(version),
{
    if version.is_backdroptype_supported() {
        Ok(one_call(WindowCall::SetAttribute {
            attribute: DwmAttribute::SystemBackdropType,
            value: BackdropType::Disable.value(),
        }))
    } else {
        Err(Error::UnsupportedPlatformVersion(
            "\"clear_tabbed()\" is only available on Windows 11 build 22523+.",
        ))
    }
}

/// The call that sets the corner preference, per version.
pub open spec fn spec_apply_rounded_corners(v: OsVersionParts, preference: CornerPreference) -> Result<Seq<WindowCall>, Error> {
    if !v.spec_undocumented_mica_supported() {
        Err(Error::UnsupportedPlatformVersion(
            "\"apply_rounded_corners()\" is only available on Windows 11.",
        ))
    } else {
        Ok(seq![set_attribute(DwmAttribute::WindowCornerPreference, preference.spec_value())])
    }
}

/// Plans setting the corner preference. Works on Windows 11.
pub fn apply_rounded_corners(version: OsVersionParts, preference: CornerPreference) -> (p: Plan)
    ensures
        plan_view(p) == spec_apply_rounded_corners(version, preference),
{
    if !version.is_undocumented_mica_supported() {
        return Err(Error::UnsupportedPlatformVersion(
            "\"apply_rounded_corners()\" is only available on Windows 11.",
        ));
    }
    Ok(one_call(WindowCall::SetAttribute {
        attribute: DwmAttribute::WindowCornerPreference,
        value: preference.value(),
    }))
}

/// The call, if the condition holds; nothing otherwise.
pub open spec fn call_if(condition: bool, call: WindowCall) -> Seq<WindowCall> {
    if condition {
        seq![call]
    } else {
        seq![]
    }
}

/// The calls that undo every effect that the version has: dark mode, the
/// backdrop type, the undocumented Mica attribute, the composition accent and
/// Windows 7 blur, each where the version has it, in that order.
pub open spec fn spec_clear_all_effects(v: OsVersionParts) -> Seq<WindowCall> {
    call_if(v.spec_swca_supported(), set_attribute(DwmAttribute::UseImmersiveDarkMode, 0))
        + call_if(
        v.spec_backdroptype_supported(),
        set_attribute(DwmAttribute::SystemBackdropType, BackdropType::Disable.spec_value()),
    ) + call_if(v.spec_undocumented_mica_supported(), set_attribute(DwmAttribute::MicaEffect, 0))
        + call_if(v.spec_swca_supported(), spec_composition(AccentState::Disabled, None))
        + call_if(v.spec_is_win7(), WindowCall::BlurBehind { enable: false })
}

/// Plans clearing any effect; on every version there is such a plan.
pub fn clear_all_effects(version: OsVersionParts) -> (calls: Vec<WindowCall>)
    ensures
        calls@ == spec_clear_all_effects(version),
{
    let mut calls: Vec<WindowCall> = Vec::new();
    if version.is_swca_supported() {
        calls.push(WindowCall::SetAttribute { attribute: DwmAttribute::UseImmersiveDarkMode, value: 0 });
    }
    assert(calls@ =~= call_if(version.spec_swca_supported(), set_attribute(DwmAttribute::UseImmersiveDarkMode, 0)));
    let ghost s1 = calls@;
    if version.is_backdroptype_supported() {
        calls.push(WindowCall::SetAttribute {
            attribute: DwmAttribute::SystemBackdropType,
            value: BackdropType::Disable.value(),
        });
    }
    assert(calls@ =~= s1 + call_if(
        version.spec_backdroptype_supported(),
        set_attribute(DwmAttribute::SystemBackdropType, BackdropType::Disable.spec_value()),
    ));
    let ghost s2 = calls@;
    if version.is_undocumented_mica_supported() {
        calls.push(WindowCall::SetAttribute { attribute: DwmAttribute::MicaEffect, value: 0 });
    }
    assert(calls@ =~= s2 + call_if(version.spec_undocumented_mica_supported(), set_attribute(DwmAttribute::MicaEffect, 0)));
    let ghost s3 = calls@;
    if version.is_swca_supported() {
        calls.push(composition(AccentState::Disabled, None));
    }
    assert(calls@ =~= s3 + call_if(version.spec_swca_supported(), spec_composition(AccentState::Disabled, None)));
    let ghost s4 = calls@;
    if version.is_win7() {
        calls.push(WindowCall::BlurBehind { enable: false });
    }
    assert(calls@ =~= s4 + call_if(version.spec_is_win7(), WindowCall::BlurBehind { enable: false }));
    calls
}

/// The calls of the best effect that the version supports.
pub open spec fn spec_apply_best_effect(v: OsVersionParts, dark: Option<bool>) -> Seq<WindowCall> {
    match v.best_effect() {
        Effect::Tabbed => spec_apply_tabbed(v, dark)->Ok_0,
        Effect::Mica => spec_apply_mica(v, dark)->Ok_0,
        Effect::Acrylic => spec_apply_acrylic(v, None)->Ok_0,
        Effect::Blur => spec_apply_blur(v, None)->Ok_0,
        Effect::Clear => Seq::empty(),
    }
}

/// Plans the best effect that the version supports, with the effect chosen.
/// Each chosen effect is directly supported, so its plan never fails.
pub fn apply_best_effect(version: OsVersionParts, dark: Option<bool>) -> (r: (Effect, Vec<WindowCall>))
    ensures
        r.0 == version.best_effect(),
        r.1@ == spec_apply_best_effect(version, dark),
        r.0 == Effect::Tabbed ==> spec_apply_tabbed(version, dark) == Ok::<Seq<WindowCall>, Error>(r.1@),
        r.0 == Effect::Mica ==> spec_apply_mica(version, dark) == Ok::<Seq<WindowCall>, Error>(r.1@),
        r.0 == Effect::Acrylic ==> spec_apply_acrylic(version, None) == Ok::<Seq<WindowCall>, Error>(r.1@),
        r.0 == Effect::Blur ==> spec_apply_blur(version, None) == Ok::<Seq<WindowCall>, Error>(r.1@),
        r.0 == Effect::Clear ==> r.1@ == Seq::<WindowCall>::empty(),
{
    let effect = best_supported_effect_for_version(version.major, version.minor, version.build);
    let plan = match effect {
        Effect::Tabbed => apply_tabbed(version, dark),
        Effect::Mica => apply_mica(version, dark),
        Effect::Acrylic => apply_acrylic(version, None),
        Effect::Blur => apply_blur(version, None),
        Effect::Clear => Ok(Vec::new()),
    };
    match plan {
        Ok(calls) => (effect, calls),
        Err(_) => {
            assert(false);
            (effect, Vec::new())
        },
    }
}

} // verus!
