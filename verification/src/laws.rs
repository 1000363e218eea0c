//! What holds across the library's functions.

use vstd::prelude::*;

use crate::calls::{
    effective_color, off_value, set_attribute, settings_after, written, WindowSlot, spec_accent_policy, spec_composition, AccentState, BackdropType,
    DwmAttribute, WindowCall, CallOutcome, spec_outcome_result,
};
use crate::windows::{
    call_if, spec_apply_acrylic, spec_apply_blur, spec_apply_mica, spec_apply_tabbed, spec_clear_acrylic,
    spec_clear_all_effects, spec_clear_blur, spec_clear_mica, spec_clear_tabbed, OsVersionParts,
};
use crate::error::Error;
use crate::windows::spec_apply_rounded_corners;
use crate::{
    CornerPreference, spec_apply_mica_for_version, spec_apply_tabbed_for_version, spec_switch_apply, Color, Effect,
};

verus! {

/// The order of effects from none to the newest: Clear, Blur, Acrylic, Mica, Tabbed.
pub open spec fn effect_rank(e: Effect) -> int {
    match e {
        Effect::Clear => 0,
        Effect::Blur => 1,
        Effect::Acrylic => 2,
        Effect::Mica => 3,
        Effect::Tabbed => 4,
    }
}

/// Requesting Mica gives Mica where the version has it, and on Windows 10
/// (no Mica) falls back to Acrylic.
pub proof fn lemma_mica_falls_back_to_acrylic(v: OsVersionParts, dark: Option<bool>)
    ensures
        v.spec_undocumented_mica_supported() ==> spec_apply_mica_for_version(v, dark)
            == spec_apply_mica(v, dark),
        !v.spec_undocumented_mica_supported() ==> spec_apply_mica_for_version(v, dark)
            == spec_apply_acrylic(v, None),
{
}

/// Requesting Mica Alt gives Mica Alt where the version has it, and on older
/// Windows falls back to Mica, then Acrylic.
pub proof fn lemma_tabbed_falls_back_to_mica(v: OsVersionParts, dark: Option<bool>)
    ensures
        v.spec_backdroptype_supported() ==> spec_apply_tabbed_for_version(v, dark)
            == spec_apply_tabbed(v, dark),
        !v.spec_backdroptype_supported() ==> spec_apply_tabbed_for_version(v, dark)
            == spec_apply_mica_for_version(v, dark),
{
}

/// The best effect of a version is one that the version supports directly.
pub proof fn lemma_best_effect_is_supported(v: OsVersionParts)
    ensures
        v.supports(v.best_effect()),
{
}

/// No effect that a version supports directly ranks above its best effect.
pub proof fn lemma_best_effect_is_best(v: OsVersionParts, e: Effect)
    ensures
        v.supports(e) ==> effect_rank(e) <= effect_rank(v.best_effect()),
{
}

/// Support is nested: Mica Alt implies Mica, Mica implies Acrylic, Acrylic
/// implies Blur, and Clear is always there.
pub proof fn lemma_support_is_nested(v: OsVersionParts)
    ensures
        v.supports(Effect::Tabbed) ==> v.supports(Effect::Mica),
        v.supports(Effect::Mica) ==> v.supports(Effect::Acrylic),
        v.supports(Effect::Acrylic) ==> v.supports(Effect::Blur),
        v.supports(Effect::Clear),
{
}

/// Support is reported for the effect itself only: on Windows 10 v1809+
/// before Windows 11, Mica is not supported, yet requesting it succeeds with
/// Acrylic.
pub proof fn lemma_support_is_direct_only(v: OsVersionParts, dark: Option<bool>)
    ensures
        v.spec_swca_supported() && !v.spec_undocumented_mica_supported() ==> {
            &&& !v.supports(Effect::Mica)
            &&& spec_apply_mica_for_version(v, dark) == spec_apply_acrylic(v, None)
            &&& spec_apply_acrylic(v, None) is Ok
        },
{
}

/// Each effect's own plan fails exactly on the versions that do not support
/// the effect directly, and then with `UnsupportedPlatformVersion`.
pub proof fn lemma_plans_fail_exactly_when_unsupported(
    v: OsVersionParts,
    dark: Option<bool>,
    color: Option<Color>,
)
    ensures
        spec_apply_blur(v, color) is Err <==> !v.supports(Effect::Blur),
        spec_apply_acrylic(v, color) is Err <==> !v.supports(Effect::Acrylic),
        spec_apply_mica(v, dark) is Err <==> !v.supports(Effect::Mica),
        spec_apply_tabbed(v, dark) is Err <==> !v.supports(Effect::Tabbed),
        spec_apply_blur(v, color) matches Err(e) ==> e is UnsupportedPlatformVersion,
        spec_apply_acrylic(v, color) matches Err(e) ==> e is UnsupportedPlatformVersion,
        spec_apply_mica(v, dark) matches Err(e) ==> e is UnsupportedPlatformVersion,
        spec_apply_tabbed(v, dark) matches Err(e) ==> e is UnsupportedPlatformVersion,
{
}

/// Switching to an effect that the version supports directly never fails in
/// planning.
pub proof fn lemma_switch_to_supported_effect_is_planned(
    v: OsVersionParts,
    effect: Effect,
    dark: Option<bool>,
    color: Option<Color>,
)
    ensures
        v.supports(effect) ==> spec_switch_apply(v, effect, dark, color) is Ok,
{
}

/// Acrylic is never given a fully transparent tint: its alpha is at least 1,
/// so the packed color is at least `0x01000000`.
pub proof fn lemma_acrylic_tint_is_never_transparent(color: Option<Color>)
    ensures
        effective_color(AccentState::EnableAcrylicBlurBehind, color).3 >= 1,
        spec_accent_policy(AccentState::EnableAcrylicBlurBehind, color).gradient_color >= 0x0100_0000,
{
}

/// Clearing all effects makes every call that clearing one effect makes,
/// wherever clearing that effect is possible.
pub proof fn lemma_clear_all_covers_each_clear(v: OsVersionParts)
    ensures
        spec_clear_blur(v) matches Ok(calls) ==> forall|i: int|
            0 <= i < calls.len() ==> spec_clear_all_effects(v).contains(#[trigger] calls[i]),
        spec_clear_acrylic(v) matches Ok(calls) ==> forall|i: int|
            0 <= i < calls.len() ==> spec_clear_all_effects(v).contains(#[trigger] calls[i]),
        spec_clear_mica(v) matches Ok(calls) ==> forall|i: int|
            0 <= i < calls.len() ==> spec_clear_all_effects(v).contains(#[trigger] calls[i]),
        spec_clear_tabbed(v) matches Ok(calls) ==> forall|i: int|
            0 <= i < calls.len() ==> spec_clear_all_effects(v).contains(#[trigger] calls[i]),
{
    let all = spec_clear_all_effects(v);
    let dark_off = set_attribute(DwmAttribute::UseImmersiveDarkMode, 0);
    let backdrop_off = set_attribute(DwmAttribute::SystemBackdropType, BackdropType::Disable.spec_value());
    let mica_off = set_attribute(DwmAttribute::MicaEffect, 0);
    let accent_off = spec_composition(AccentState::Disabled, None);
    let blur_off = WindowCall::BlurBehind { enable: false };
    let tail = call_if(v.spec_is_win7(), blur_off);
    if v.spec_backdroptype_supported() {
        assert(all =~= seq![dark_off, backdrop_off, mica_off, accent_off] + tail);
        assert(all[0] == dark_off && all[1] == backdrop_off && all[2] == mica_off && all[3] == accent_off);
    } else if v.spec_undocumented_mica_supported() {
        assert(all =~= seq![dark_off, mica_off, accent_off] + tail);
        assert(all[0] == dark_off && all[1] == mica_off && all[2] == accent_off);
    } else if v.spec_swca_supported() {
        assert(all =~= seq![dark_off, accent_off] + tail);
        assert(all[0] == dark_off && all[1] == accent_off);
    } else {
        assert(all =~= tail);
    }
    if v.spec_is_win7() {
        assert(all[all.len() - 1] == blur_off);
    }
}

/// Making calls one list after another writes what making them as one list writes.
pub proof fn lemma_settings_after_concat(
    settings: Map<WindowSlot, u32>,
    first: Seq<WindowCall>,
    second: Seq<WindowCall>,
)
    ensures
        settings_after(settings, first + second) == settings_after(settings_after(settings, first), second),
    decreases first.len(),
{
    if first.len() == 0 {
        assert(first + second =~= second);
    } else {
        let w = written(first[0]);
        assert((first + second).drop_first() =~= first.drop_first() + second);
        lemma_settings_after_concat(settings.insert(w.0, w.1), first.drop_first(), second);
    }
}

proof fn lemma_settings_after_one(settings: Map<WindowSlot, u32>, call: WindowCall)
    ensures
        settings_after(settings, seq![call]) == settings.insert(written(call).0, written(call).1),
{
    let after = settings.insert(written(call).0, written(call).1);
    assert(seq![call].drop_first() =~= Seq::<WindowCall>::empty());
    assert(settings_after(after, Seq::<WindowCall>::empty()) == after);
}

proof fn lemma_settings_after_two(settings: Map<WindowSlot, u32>, first: WindowCall, second: WindowCall)
    ensures
        settings_after(settings, seq![first, second]) == settings.insert(written(first).0, written(first).1).insert(
            written(second).0,
            written(second).1,
        ),
{
    let after_first = settings.insert(written(first).0, written(first).1);
    assert(seq![first, second].drop_first() =~= seq![second]);
    lemma_settings_after_one(after_first, second);
}

proof fn lemma_settings_after_call_if(settings: Map<WindowSlot, u32>, condition: bool, call: WindowCall)
    ensures
        settings_after(settings, call_if(condition, call)) == (if condition {
            settings.insert(written(call).0, written(call).1)
        } else {
            settings
        }),
{
    if condition {
        lemma_settings_after_one(settings, call);
    }
}

/// Whether every setting that the calls write holds its off value.
pub open spec fn turned_off(settings: Map<WindowSlot, u32>, calls: Seq<WindowCall>) -> bool {
    forall|i: int|
        0 <= i < calls.len() ==> settings.dom().contains(#[trigger] written(calls[i]).0)
            && settings[written(calls[i]).0] == off_value(written(calls[i]).0)
}

/// Clearing all effects, whatever the window held before, leaves dark mode
/// and the accent off where the composition attribute exists, the Mica
/// attribute off from Windows 11 on, the backdrop type disabled from build
/// 22523 on, and blur behind off on Windows 7.
pub proof fn lemma_clear_all_turns_everything_off(v: OsVersionParts, settings: Map<WindowSlot, u32>)
    ensures
        ({
            let after = settings_after(settings, spec_clear_all_effects(v));
            &&& v.spec_swca_supported() ==> after.dom().contains(WindowSlot::Attribute(DwmAttribute::UseImmersiveDarkMode))
                && after[WindowSlot::Attribute(DwmAttribute::UseImmersiveDarkMode)] == 0
            &&& v.spec_swca_supported() ==> after.dom().contains(WindowSlot::Accent) && after[WindowSlot::Accent] == 0
            &&& v.spec_undocumented_mica_supported() ==> after.dom().contains(WindowSlot::Attribute(DwmAttribute::MicaEffect))
                && after[WindowSlot::Attribute(DwmAttribute::MicaEffect)] == 0
            &&& v.spec_backdroptype_supported() ==> after.dom().contains(WindowSlot::Attribute(DwmAttribute::SystemBackdropType))
                && after[WindowSlot::Attribute(DwmAttribute::SystemBackdropType)] == BackdropType::Disable.spec_value()
            &&& v.spec_is_win7() ==> after.dom().contains(WindowSlot::BlurBehind) && after[WindowSlot::BlurBehind] == 0
        }),
{
    let p1 = call_if(v.spec_swca_supported(), set_attribute(DwmAttribute::UseImmersiveDarkMode, 0));
    let p2 = call_if(
        v.spec_backdroptype_supported(),
        set_attribute(DwmAttribute::SystemBackdropType, BackdropType::Disable.spec_value()),
    );
    let p3 = call_if(v.spec_undocumented_mica_supported(), set_attribute(DwmAttribute::MicaEffect, 0));
    let p4 = call_if(v.spec_swca_supported(), spec_composition(AccentState::Disabled, None));
    let p5 = call_if(v.spec_is_win7(), WindowCall::BlurBehind { enable: false });
    lemma_settings_after_concat(settings, p1, p2);
    lemma_settings_after_concat(settings, p1 + p2, p3);
    lemma_settings_after_concat(settings, p1 + p2 + p3, p4);
    lemma_settings_after_concat(settings, p1 + p2 + p3 + p4, p5);
    let s1 = settings_after(settings, p1);
    let s2 = settings_after(s1, p2);
    let s3 = settings_after(s2, p3);
    let s4 = settings_after(s3, p4);
    lemma_settings_after_call_if(settings, v.spec_swca_supported(), set_attribute(DwmAttribute::UseImmersiveDarkMode, 0));
    lemma_settings_after_call_if(
        s1,
        v.spec_backdroptype_supported(),
        set_attribute(DwmAttribute::SystemBackdropType, BackdropType::Disable.spec_value()),
    );
    lemma_settings_after_call_if(s2, v.spec_undocumented_mica_supported(), set_attribute(DwmAttribute::MicaEffect, 0));
    lemma_settings_after_call_if(s3, v.spec_swca_supported(), spec_composition(AccentState::Disabled, None));
    lemma_settings_after_call_if(s4, v.spec_is_win7(), WindowCall::BlurBehind { enable: false });
}

/// Clearing all effects turns off every setting that an earlier Blur,
/// Acrylic, Mica or Mica Alt wrote on the same version, whatever was written
/// before that.
pub proof fn lemma_clear_all_undoes_every_effect(
    v: OsVersionParts,
    settings: Map<WindowSlot, u32>,
    dark: Option<bool>,
    color: Option<Color>,
)
    ensures
        spec_apply_blur(v, color) matches Ok(calls) ==> turned_off(
            settings_after(settings_after(settings, calls), spec_clear_all_effects(v)),
            calls,
        ),
        spec_apply_acrylic(v, color) matches Ok(calls) ==> turned_off(
            settings_after(settings_after(settings, calls), spec_clear_all_effects(v)),
            calls,
        ),
        spec_apply_mica(v, dark) matches Ok(calls) ==> turned_off(
            settings_after(settings_after(settings, calls), spec_clear_all_effects(v)),
            calls,
        ),
        spec_apply_tabbed(v, dark) matches Ok(calls) ==> turned_off(
            settings_after(settings_after(settings, calls), spec_clear_all_effects(v)),
            calls,
        ),
{
    if let Ok(calls) = spec_apply_blur(v, color) {
        lemma_clear_all_turns_everything_off(v, settings_after(settings, calls));
    }
    if let Ok(calls) = spec_apply_acrylic(v, color) {
        lemma_clear_all_turns_everything_off(v, settings_after(settings, calls));
    }
    if let Ok(calls) = spec_apply_mica(v, dark) {
        lemma_clear_all_turns_everything_off(v, settings_after(settings, calls));
    }
    if let Ok(calls) = spec_apply_tabbed(v, dark) {
        lemma_clear_all_turns_everything_off(v, settings_after(settings, calls));
    }
}

/// Clearing an effect right after applying it leaves the window as clearing
/// alone does, for Blur, Acrylic and Mica; clearing Mica Alt disables the
/// backdrop but keeps the dark mode that applying it set. Each clear plan
/// exists wherever its effect's apply plan does.
pub proof fn lemma_clear_after_apply(
    v: OsVersionParts,
    settings: Map<WindowSlot, u32>,
    dark: Option<bool>,
    color: Option<Color>,
)
    ensures
        spec_apply_blur(v, color) matches Ok(applied) ==> spec_clear_blur(v) matches Ok(cleared)
            && settings_after(settings_after(settings, applied), cleared) == settings_after(settings, cleared),
        spec_apply_acrylic(v, color) matches Ok(applied) ==> spec_clear_acrylic(v) matches Ok(cleared)
            && settings_after(settings_after(settings, applied), cleared) == settings_after(settings, cleared),
        spec_apply_mica(v, dark) matches Ok(applied) ==> spec_clear_mica(v) matches Ok(cleared)
            && settings_after(settings_after(settings, applied), cleared) == settings_after(settings, cleared),
        spec_apply_tabbed(v, dark) matches Ok(applied) ==> spec_clear_tabbed(v) matches Ok(cleared)
            && settings_after(settings_after(settings, applied), cleared) == settings_after(settings, applied).insert(
            WindowSlot::Attribute(DwmAttribute::SystemBackdropType),
            BackdropType::Disable.spec_value(),
        ),
{
    if let Ok(applied) = spec_apply_blur(v, color) {
        let cleared = spec_clear_blur(v)->Ok_0;
        lemma_settings_after_one(settings, applied[0]);
        lemma_settings_after_one(settings_after(settings, applied), cleared[0]);
        lemma_settings_after_one(settings, cleared[0]);
        assert(applied =~= seq![applied[0]]);
        assert(cleared =~= seq![cleared[0]]);
        assert(settings_after(settings_after(settings, applied), cleared) =~= settings_after(settings, cleared));
    }
    if let Ok(applied) = spec_apply_acrylic(v, color) {
        let cleared = spec_clear_acrylic(v)->Ok_0;
        lemma_settings_after_one(settings, applied[0]);
        lemma_settings_after_one(settings_after(settings, applied), cleared[0]);
        lemma_settings_after_one(settings, cleared[0]);
        assert(applied =~= seq![applied[0]]);
        assert(cleared =~= seq![cleared[0]]);
        assert(settings_after(settings_after(settings, applied), cleared) =~= settings_after(settings, cleared));
    }
    if let Ok(applied) = spec_apply_mica(v, dark) {
        let cleared = spec_clear_mica(v)->Ok_0;
        lemma_settings_after_two(settings, applied[0], applied[1]);
        lemma_settings_after_two(settings_after(settings, applied), cleared[0], cleared[1]);
        lemma_settings_after_two(settings, cleared[0], cleared[1]);
        assert(applied =~= seq![applied[0], applied[1]]);
        assert(cleared =~= seq![cleared[0], cleared[1]]);
        assert(settings_after(settings_after(settings, applied), cleared) =~= settings_after(settings, cleared));
    }
    if let Ok(applied) = spec_apply_tabbed(v, dark) {
        let cleared = spec_clear_tabbed(v)->Ok_0;
        lemma_settings_after_one(settings_after(settings, applied), cleared[0]);
        assert(cleared =~= seq![cleared[0]]);
        assert(settings_after(settings_after(settings, applied), cleared) =~= settings_after(settings, applied).insert(
            WindowSlot::Attribute(DwmAttribute::SystemBackdropType),
            BackdropType::Disable.spec_value(),
        ));
    }
}

/// The number of dark mode that a request asks for: 1 for `Some(true)`, else 0.
pub open spec fn requested_dark(dark: Option<bool>) -> u32 {
    if dark == Some(true) {
        1
    } else {
        0
    }
}

/// A color packed as `0xAABBGGRR`; no color is 0.
pub open spec fn packed_or_zero(color: Option<Color>) -> int {
    match color {
        Some(c) => c.0 + 256 * c.1 + 65536 * c.2 + 16777216 * c.3,
        None => 0,
    }
}

/// Whether the calls are exactly one composition call with these accent state,
/// flags and packed color.
pub open spec fn is_single_composition(calls: Seq<WindowCall>, state: u32, flags: u32, gradient: int) -> bool {
    &&& calls.len() == 1
    &&& calls[0] matches WindowCall::Composition { policy }
    &&& policy.accent_state == state
    &&& policy.accent_flags == flags
    &&& policy.gradient_color as int == gradient
    &&& policy.animation_id == 0
}

/// Blur is DWM blur behind on Windows 7 and otherwise, from build 17763 on,
/// the blur-behind accent (state 3, flags 2) with the color as given; on
/// other versions it is refused. Clearing it turns DWM blur off on Windows 7,
/// else sets the disabled accent (state 0) without color.
pub proof fn lemma_blur_plans(v: OsVersionParts, color: Option<Color>)
    ensures
        v.major == 6 && v.minor == 1 ==> spec_apply_blur(v, color) == Ok::<Seq<WindowCall>, Error>(
            seq![WindowCall::BlurBehind { enable: true }],
        ),
        !(v.major == 6 && v.minor == 1) && v.build >= 17763 ==> (spec_apply_blur(v, color) matches Ok(
            calls,
        ) && is_single_composition(calls, 3, 2, packed_or_zero(color))),
        !(v.major == 6 && v.minor == 1) && v.build < 17763 ==> spec_apply_blur(v, color) matches Err(
            Error::UnsupportedPlatformVersion(_),
        ),
        v.major == 6 && v.minor == 1 ==> spec_clear_blur(v) == Ok::<Seq<WindowCall>, Error>(
            seq![WindowCall::BlurBehind { enable: false }],
        ),
        !(v.major == 6 && v.minor == 1) && v.build >= 17763 ==> (spec_clear_blur(v) matches Ok(calls)
            && is_single_composition(calls, 0, 2, 0)),
        !(v.major == 6 && v.minor == 1) && v.build < 17763 ==> spec_clear_blur(v) matches Err(
            Error::UnsupportedPlatformVersion(_),
        ),
{
}

/// Acrylic is the transient-window backdrop (type 3) from build 22523 on;
/// from build 17763 it is the acrylic accent (state 4, flags 0) with the
/// color as given but never a fully transparent alpha; before that it is
/// refused. Clearing it disables the backdrop (type 1), or sets the disabled
/// accent without color.
pub proof fn lemma_acrylic_plans(v: OsVersionParts, color: Option<Color>)
    ensures
        v.build >= 22523 ==> spec_apply_acrylic(v, color) == Ok::<Seq<WindowCall>, Error>(
            seq![WindowCall::SetAttribute { attribute: DwmAttribute::SystemBackdropType, value: 3 }],
        ),
        17763 <= v.build < 22523 ==> (spec_apply_acrylic(v, color) matches Ok(calls) && is_single_composition(
            calls,
            4,
            0,
            ({
                let c = match color {
                    Some(c) => c,
                    None => (0u8, 0u8, 0u8, 0u8),
                };
                c.0 + 256 * c.1 + 65536 * c.2 + 16777216 * (if c.3 == 0 { 1 } else { c.3 as int })
            }),
        )),
        v.build < 17763 ==> spec_apply_acrylic(v, color) matches Err(Error::UnsupportedPlatformVersion(_)),
        v.build >= 22523 ==> spec_clear_acrylic(v) == Ok::<Seq<WindowCall>, Error>(
            seq![WindowCall::SetAttribute { attribute: DwmAttribute::SystemBackdropType, value: 1 }],
        ),
        17763 <= v.build < 22523 ==> (spec_clear_acrylic(v) matches Ok(calls) && is_single_composition(
            calls,
            0,
            2,
            0,
        )),
        v.build < 17763 ==> spec_clear_acrylic(v) matches Err(Error::UnsupportedPlatformVersion(_)),
{
}

/// Mica first writes dark mode (20) as requested, then the main-window
/// backdrop (38 = 2) from build 22523 on, or the Mica attribute (1029 = 1)
/// from build 22000; before that it is refused. Clearing it writes dark mode
/// 0, then disables the backdrop (type 1) or the Mica attribute (0).
pub proof fn lemma_mica_plans(v: OsVersionParts, dark: Option<bool>)
    ensures
        v.build >= 22523 ==> spec_apply_mica(v, dark) == Ok::<Seq<WindowCall>, Error>(
            seq![
                WindowCall::SetAttribute { attribute: DwmAttribute::UseImmersiveDarkMode, value: requested_dark(dark) },
                WindowCall::SetAttribute { attribute: DwmAttribute::SystemBackdropType, value: 2 },
            ],
        ),
        22000 <= v.build < 22523 ==> spec_apply_mica(v, dark) == Ok::<Seq<WindowCall>, Error>(
            seq![
                WindowCall::SetAttribute { attribute: DwmAttribute::UseImmersiveDarkMode, value: requested_dark(dark) },
                WindowCall::SetAttribute { attribute: DwmAttribute::MicaEffect, value: 1 },
            ],
        ),
        v.build < 22000 ==> spec_apply_mica(v, dark) matches Err(Error::UnsupportedPlatformVersion(_)),
        v.build >= 22523 ==> spec_clear_mica(v) == Ok::<Seq<WindowCall>, Error>(
            seq![
                WindowCall::SetAttribute { attribute: DwmAttribute::UseImmersiveDarkMode, value: 0 },
                WindowCall::SetAttribute { attribute: DwmAttribute::SystemBackdropType, value: 1 },
            ],
        ),
        22000 <= v.build < 22523 ==> spec_clear_mica(v) == Ok::<Seq<WindowCall>, Error>(
            seq![
                WindowCall::SetAttribute { attribute: DwmAttribute::UseImmersiveDarkMode, value: 0 },
                WindowCall::SetAttribute { attribute: DwmAttribute::MicaEffect, value: 0 },
            ],
        ),
        v.build < 22000 ==> spec_clear_mica(v) matches Err(Error::UnsupportedPlatformVersion(_)),
{
}

/// Mica Alt first writes dark mode as requested, then the tabbed-window
/// backdrop (type 4), from build 22523 on; before that it is refused.
/// Clearing it disables the backdrop (type 1).
pub proof fn lemma_tabbed_plans(v: OsVersionParts, dark: Option<bool>)
    ensures
        v.build >= 22523 ==> spec_apply_tabbed(v, dark) == Ok::<Seq<WindowCall>, Error>(
            seq![
                WindowCall::SetAttribute { attribute: DwmAttribute::UseImmersiveDarkMode, value: requested_dark(dark) },
                WindowCall::SetAttribute { attribute: DwmAttribute::SystemBackdropType, value: 4 },
            ],
        ),
        v.build < 22523 ==> spec_apply_tabbed(v, dark) matches Err(Error::UnsupportedPlatformVersion(_)),
        v.build >= 22523 ==> spec_clear_tabbed(v) == Ok::<Seq<WindowCall>, Error>(
            seq![WindowCall::SetAttribute { attribute: DwmAttribute::SystemBackdropType, value: 1 }],
        ),
        v.build < 22523 ==> spec_clear_tabbed(v) matches Err(Error::UnsupportedPlatformVersion(_)),
{
}

/// From build 22000 on, the corner plan is one write of the corner
/// preference (33) with the preference's number: Default 0, Square 1,
/// Round 2, RoundSmall 3; before that it is refused.
pub proof fn lemma_corner_plans(v: OsVersionParts, preference: CornerPreference)
    ensures
        v.build >= 22000 ==> spec_apply_rounded_corners(v, preference) == Ok::<Seq<WindowCall>, Error>(
            seq![WindowCall::SetAttribute { attribute: DwmAttribute::WindowCornerPreference, value: preference.spec_value() }],
        ),
        preference.spec_value() == (match preference {
            CornerPreference::Default => 0u32,
            CornerPreference::Square => 1u32,
            CornerPreference::Round => 2u32,
            CornerPreference::RoundSmall => 3u32,
        }),
        v.build < 22000 ==> spec_apply_rounded_corners(v, preference) matches Err(
            Error::UnsupportedPlatformVersion(_),
        ),
{
}

/// The attribute numbers that the calls write, as `DWMWINDOWATTRIBUTE` has
/// them.
pub proof fn lemma_attribute_numbers(attribute: DwmAttribute)
    ensures
        attribute.spec_id() == (match attribute {
            DwmAttribute::UseImmersiveDarkMode => 20u32,
            DwmAttribute::WindowCornerPreference => 33u32,
            DwmAttribute::SystemBackdropType => 38u32,
            DwmAttribute::MicaEffect => 1029u32,
        }),
{
}

/// Switching applies the requested effect's own plan: Blur and Acrylic as
/// applying them does, Mica from build 22000 on and Mica Alt from build
/// 22523 on as applying them does; below those builds Mica Alt falls to
/// Mica and then, like Mica, to Acrylic with the given color; Clear applies
/// nothing.
pub proof fn lemma_switch_applies_requested_effect(
    v: OsVersionParts,
    dark: Option<bool>,
    color: Option<Color>,
)
    ensures
        spec_switch_apply(v, Effect::Blur, dark, color) == spec_apply_blur(v, color),
        spec_switch_apply(v, Effect::Acrylic, dark, color) == spec_apply_acrylic(v, color),
        spec_switch_apply(v, Effect::Mica, dark, color) == (if v.build >= 22000 {
            spec_apply_mica(v, dark)
        } else {
            spec_apply_acrylic(v, color)
        }),
        spec_switch_apply(v, Effect::Tabbed, dark, color) == (if v.build >= 22523 {
            spec_apply_tabbed(v, dark)
        } else if v.build >= 22000 {
            spec_apply_mica(v, dark)
        } else {
            spec_apply_acrylic(v, color)
        }),
        spec_switch_apply(v, Effect::Clear, dark, color) == Ok::<Seq<WindowCall>, Error>(Seq::empty()),
{
}

/// A call succeeds on a non-negative `HRESULT` or a non-zero `BOOL`; a
/// failure is reported under the call's own function name with the `HRESULT`,
/// or with the last error's bits as `i32`; an unresolved function is
/// `MissingFunction`. The names are those of the Win32 functions written.
pub proof fn lemma_outcome_results(call: WindowCall, outcome: CallOutcome)
    ensures
        call.spec_function_name() == (match call {
            WindowCall::SetAttribute { attribute, .. } => match attribute {
                DwmAttribute::UseImmersiveDarkMode => "DwmSetWindowAttribute(DWMWA_USE_IMMERSIVE_DARK_MODE)",
                DwmAttribute::WindowCornerPreference => "DwmSetWindowAttribute(DWMWA_WINDOW_CORNER_PREFERENCE)",
                DwmAttribute::SystemBackdropType => "DwmSetWindowAttribute(DWMWA_SYSTEMBACKDROP_TYPE)",
                DwmAttribute::MicaEffect => "DwmSetWindowAttribute(DWMWA_MICA_EFFECT)",
            },
            WindowCall::BlurBehind { .. } => "DwmEnableBlurBehindWindow",
            WindowCall::Composition { .. } => "SetWindowCompositionAttribute",
        }),
        outcome matches CallOutcome::Hresult(code) ==> (spec_outcome_result(call, outcome) is Ok <==> code >= 0),
        outcome matches CallOutcome::Hresult(code) ==> (code < 0 ==> spec_outcome_result(call, outcome)
            == Err::<(), Error>(Error::WindowsApi { function: call.spec_function_name(), code })),
        outcome matches CallOutcome::Bool { result, last_error } ==> (spec_outcome_result(call, outcome) is Ok
            <==> result != 0),
        outcome matches CallOutcome::Bool { result, last_error } ==> (result == 0 ==> spec_outcome_result(
            call,
            outcome,
        ) == Err::<(), Error>(Error::WindowsApi { function: call.spec_function_name(), code: last_error as i32 })),
        outcome is Missing ==> spec_outcome_result(call, outcome) == Err::<(), Error>(
            Error::MissingFunction(call.spec_function_name()),
        ),
{
}

} // verus!
