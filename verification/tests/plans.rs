use std::num::NonZeroIsize;

use raw_window_handle::{HandleError, RawWindowHandle, Win32WindowHandle, XlibWindowHandle};
use window_vibrancy::calls::{
    accent_policy, composition, outcome_result, AccentPolicy, AccentState, BackdropType,
    CallOutcome, DwmAttribute, WindowCall,
};
use window_vibrancy::run::PlanRun;
use window_vibrancy::windows::{
    apply_acrylic, apply_best_effect, apply_blur, apply_mica, apply_rounded_corners, apply_tabbed,
    bool_result, clear_acrylic, clear_all_effects, clear_blur, clear_mica, clear_tabbed, hresult,
    OsVersionParts,
};
use window_vibrancy::{
    apply_mica_for_version, apply_tabbed_for_version, best_effect_result, get_hwnd, hwnd_from_lookup,
    switch_effect_for_version, switch_result, CornerPreference, Effect, Error,
};

const WIN7: OsVersionParts = OsVersionParts { major: 6, minor: 1, build: 7601 };
const WIN8: OsVersionParts = OsVersionParts { major: 6, minor: 2, build: 9200 };
const WIN10_1803: OsVersionParts = OsVersionParts { major: 10, minor: 0, build: 17134 };
const WIN10: OsVersionParts = OsVersionParts { major: 10, minor: 0, build: 19045 };
const WIN11_EARLY: OsVersionParts = OsVersionParts { major: 10, minor: 0, build: 22000 };
const WIN11: OsVersionParts = OsVersionParts { major: 10, minor: 0, build: 22621 };

fn attr(attribute: DwmAttribute, value: u32) -> WindowCall {
    WindowCall::SetAttribute { attribute, value }
}

fn unsupported_message(plan: Result<Vec<WindowCall>, Error>) -> &'static str {
    match plan {
        Err(Error::UnsupportedPlatformVersion(m)) => m,
        other => panic!("expected UnsupportedPlatformVersion, got {:?}", other),
    }
}

#[test]
fn blur_uses_dwm_on_windows_7_and_composition_on_windows_10() {
    assert_eq!(apply_blur(WIN7, None).unwrap(), vec![WindowCall::BlurBehind { enable: true }]);
    assert_eq!(
        apply_blur(WIN10, Some((1, 2, 3, 4))).unwrap(),
        vec![composition(AccentState::EnableBlurBehind, Some((1, 2, 3, 4)))]
    );
    assert_eq!(clear_blur(WIN7).unwrap(), vec![WindowCall::BlurBehind { enable: false }]);
    assert_eq!(
        clear_blur(WIN11).unwrap(),
        vec![composition(AccentState::Disabled, None)]
    );
    assert_eq!(
        unsupported_message(apply_blur(WIN8, None)),
        "\"apply_blur()\" is only available on Windows 7, Windows 10 v1809 or newer."
    );
    assert_eq!(
        unsupported_message(clear_blur(WIN10_1803)),
        "\"clear_blur()\" is only available on Windows 7, Windows 10 v1809 or newer."
    );
}

#[test]
fn acrylic_uses_the_backdrop_type_on_new_windows_11() {
    assert_eq!(
        apply_acrylic(WIN11, None).unwrap(),
        vec![attr(DwmAttribute::SystemBackdropType, 3)]
    );
    assert_eq!(
        apply_acrylic(WIN11_EARLY, Some((9, 9, 9, 0))).unwrap(),
        vec![composition(AccentState::EnableAcrylicBlurBehind, Some((9, 9, 9, 0)))]
    );
    assert_eq!(
        clear_acrylic(WIN11).unwrap(),
        vec![attr(DwmAttribute::SystemBackdropType, 1)]
    );
    assert_eq!(
        clear_acrylic(WIN10).unwrap(),
        vec![composition(AccentState::Disabled, None)]
    );
    assert_eq!(
        unsupported_message(apply_acrylic(WIN7, None)),
        "\"apply_acrylic()\" is only available on Windows 10 v1809 or newer."
    );
    assert_eq!(
        unsupported_message(clear_acrylic(WIN7)),
        "\"clear_acrylic()\" is only available on Windows 10 v1809 or newer."
    );
}

#[test]
fn mica_sets_dark_mode_then_the_backdrop() {
    assert_eq!(
        apply_mica(WIN11, Some(true)).unwrap(),
        vec![
            attr(DwmAttribute::UseImmersiveDarkMode, 1),
            attr(DwmAttribute::SystemBackdropType, 2)
        ]
    );
    assert_eq!(
        apply_mica(WIN11_EARLY, None).unwrap(),
        vec![
            attr(DwmAttribute::UseImmersiveDarkMode, 0),
            attr(DwmAttribute::MicaEffect, 1)
        ]
    );
    assert_eq!(
        clear_mica(WIN11).unwrap(),
        vec![
            attr(DwmAttribute::UseImmersiveDarkMode, 0),
            attr(DwmAttribute::SystemBackdropType, 1)
        ]
    );
    assert_eq!(
        clear_mica(WIN11_EARLY).unwrap(),
        vec![
            attr(DwmAttribute::UseImmersiveDarkMode, 0),
            attr(DwmAttribute::MicaEffect, 0)
        ]
    );
    assert_eq!(
        unsupported_message(apply_mica(WIN10, Some(false))),
        "\"apply_mica()\" is only available on Windows 11."
    );
    assert_eq!(
        unsupported_message(clear_mica(WIN10)),
        "\"clear_mica()\" is only available on Windows 11."
    );
}

#[test]
fn tabbed_needs_build_22523() {
    assert_eq!(
        apply_tabbed(WIN11, Some(false)).unwrap(),
        vec![
            attr(DwmAttribute::UseImmersiveDarkMode, 0),
            attr(DwmAttribute::SystemBackdropType, 4)
        ]
    );
    assert_eq!(clear_tabbed(WIN11).unwrap(), vec![attr(DwmAttribute::SystemBackdropType, 1)]);
    assert_eq!(
        unsupported_message(apply_tabbed(WIN11_EARLY, None)),
        "\"apply_tabbed()\" is only available on Windows 11 build 22523+."
    );
    assert_eq!(
        unsupported_message(clear_tabbed(WIN11_EARLY)),
        "\"clear_tabbed()\" is only available on Windows 11 build 22523+."
    );
}

#[test]
fn rounded_corners_need_windows_11() {
    assert_eq!(
        apply_rounded_corners(WIN11_EARLY, CornerPreference::Round).unwrap(),
        vec![attr(DwmAttribute::WindowCornerPreference, 2)]
    );
    assert_eq!(
        apply_rounded_corners(WIN11, CornerPreference::RoundSmall).unwrap(),
        vec![attr(DwmAttribute::WindowCornerPreference, 3)]
    );
    assert_eq!(
        unsupported_message(apply_rounded_corners(WIN10, CornerPreference::Square)),
        "\"apply_rounded_corners()\" is only available on Windows 11."
    );
}

#[test]
fn corner_backdrop_and_attribute_numbers() {
    assert_eq!(CornerPreference::Default.value(), 0);
    assert_eq!(CornerPreference::Square.value(), 1);
    assert_eq!(CornerPreference::Round.value(), 2);
    assert_eq!(CornerPreference::RoundSmall.value(), 3);
    assert_eq!(BackdropType::Disable.value(), 1);
    assert_eq!(BackdropType::MainWindow.value(), 2);
    assert_eq!(BackdropType::TransientWindow.value(), 3);
    assert_eq!(BackdropType::TabbedWindow.value(), 4);
    assert_eq!(DwmAttribute::UseImmersiveDarkMode.id(), 20);
    assert_eq!(DwmAttribute::WindowCornerPreference.id(), 33);
    assert_eq!(DwmAttribute::SystemBackdropType.id(), 38);
    assert_eq!(DwmAttribute::MicaEffect.id(), 1029);
    assert_eq!(AccentState::Disabled.value(), 0);
    assert_eq!(AccentState::EnableBlurBehind.value(), 3);
    assert_eq!(AccentState::EnableAcrylicBlurBehind.value(), 4);
}

#[test]
fn accent_policy_packs_the_color_as_abgr() {
    assert_eq!(
        accent_policy(AccentState::EnableBlurBehind, Some((0x12, 0x34, 0x56, 0x78))),
        AccentPolicy { accent_state: 3, accent_flags: 2, gradient_color: 0x7856_3412, animation_id: 0 }
    );
    assert_eq!(
        accent_policy(AccentState::Disabled, None),
        AccentPolicy { accent_state: 0, accent_flags: 2, gradient_color: 0, animation_id: 0 }
    );
}

#[test]
fn acrylic_tint_is_never_transparent() {
    assert_eq!(
        accent_policy(AccentState::EnableAcrylicBlurBehind, None),
        AccentPolicy { accent_state: 4, accent_flags: 0, gradient_color: 0x0100_0000, animation_id: 0 }
    );
    assert_eq!(
        accent_policy(AccentState::EnableAcrylicBlurBehind, Some((255, 255, 255, 0))).gradient_color,
        0x01ff_ffff
    );
    assert_eq!(
        accent_policy(AccentState::EnableAcrylicBlurBehind, Some((1, 2, 3, 200))).gradient_color,
        0xc803_0201
    );
}

#[test]
fn clear_all_effects_clears_what_each_version_has() {
    let dark_off = attr(DwmAttribute::UseImmersiveDarkMode, 0);
    let backdrop_off = attr(DwmAttribute::SystemBackdropType, 1);
    let mica_off = attr(DwmAttribute::MicaEffect, 0);
    let accent_off = composition(AccentState::Disabled, None);
    assert_eq!(clear_all_effects(WIN11), vec![dark_off, backdrop_off, mica_off, accent_off]);
    assert_eq!(clear_all_effects(WIN11_EARLY), vec![dark_off, mica_off, accent_off]);
    assert_eq!(clear_all_effects(WIN10), vec![dark_off, accent_off]);
    assert_eq!(clear_all_effects(WIN7), vec![WindowCall::BlurBehind { enable: false }]);
    assert_eq!(clear_all_effects(WIN8), vec![]);
    for call in clear_tabbed(WIN11).unwrap() {
        assert!(clear_all_effects(WIN11).contains(&call));
    }
    for call in clear_mica(WIN11_EARLY).unwrap() {
        assert!(clear_all_effects(WIN11_EARLY).contains(&call));
    }
}

#[test]
fn mica_falls_back_to_acrylic_on_windows_10() {
    assert_eq!(
        apply_mica_for_version(WIN10, Some(true)).unwrap(),
        vec![composition(AccentState::EnableAcrylicBlurBehind, None)]
    );
    assert_eq!(
        apply_mica_for_version(WIN11, Some(true)).unwrap(),
        apply_mica(WIN11, Some(true)).unwrap()
    );
    assert_eq!(
        unsupported_message(apply_mica_for_version(WIN7, None)),
        "\"apply_acrylic()\" is only available on Windows 10 v1809 or newer."
    );
}

#[test]
fn tabbed_falls_back_to_mica_then_acrylic() {
    assert_eq!(
        apply_tabbed_for_version(WIN11, None).unwrap(),
        apply_tabbed(WIN11, None).unwrap()
    );
    assert_eq!(
        apply_tabbed_for_version(WIN11_EARLY, Some(true)).unwrap(),
        apply_mica(WIN11_EARLY, Some(true)).unwrap()
    );
    assert_eq!(
        apply_tabbed_for_version(WIN10, Some(true)).unwrap(),
        apply_acrylic(WIN10, None).unwrap()
    );
}

#[test]
fn best_effect_plans_the_supported_effect() {
    let (effect, calls) = apply_best_effect(WIN11, Some(true));
    assert_eq!(effect, Effect::Tabbed);
    assert_eq!(calls, apply_tabbed(WIN11, Some(true)).unwrap());
    let (effect, calls) = apply_best_effect(WIN11_EARLY, None);
    assert_eq!(effect, Effect::Mica);
    assert_eq!(calls, apply_mica(WIN11_EARLY, None).unwrap());
    let (effect, calls) = apply_best_effect(WIN10, Some(true));
    assert_eq!(effect, Effect::Acrylic);
    assert_eq!(calls, apply_acrylic(WIN10, None).unwrap());
    let (effect, calls) = apply_best_effect(WIN7, None);
    assert_eq!(effect, Effect::Blur);
    assert_eq!(calls, apply_blur(WIN7, None).unwrap());
    let (effect, calls) = apply_best_effect(WIN8, None);
    assert_eq!(effect, Effect::Clear);
    assert!(calls.is_empty());
}

#[test]
fn switch_effect_clears_first_and_keeps_the_tint_on_fallback() {
    let color = Some((10, 20, 30, 0));
    let plan = switch_effect_for_version(WIN10, Effect::Mica, Some(true), color);
    assert_eq!(plan.clear, clear_all_effects(WIN10));
    assert_eq!(
        plan.apply.unwrap(),
        vec![composition(AccentState::EnableAcrylicBlurBehind, color)]
    );
    let plan = switch_effect_for_version(WIN11_EARLY, Effect::Tabbed, Some(true), color);
    assert_eq!(plan.apply.unwrap(), apply_mica(WIN11_EARLY, Some(true)).unwrap());
    let plan = switch_effect_for_version(WIN11, Effect::Clear, None, None);
    assert_eq!(plan.clear, clear_all_effects(WIN11));
    assert!(plan.apply.unwrap().is_empty());
    let plan = switch_effect_for_version(WIN8, Effect::Blur, None, None);
    assert!(plan.clear.is_empty());
    assert_eq!(
        unsupported_message(plan.apply),
        "\"apply_blur()\" is only available on Windows 7, Windows 10 v1809 or newer."
    );
}

#[test]
fn outcomes_map_to_errors() {
    let call = attr(DwmAttribute::SystemBackdropType, 2);
    assert!(outcome_result(&call, CallOutcome::Hresult(0)).is_ok());
    assert!(outcome_result(&call, CallOutcome::Hresult(1)).is_ok());
    match outcome_result(&call, CallOutcome::Hresult(-2147024809)) {
        Err(Error::WindowsApi { function, code }) => {
            assert_eq!(function, "DwmSetWindowAttribute(DWMWA_SYSTEMBACKDROP_TYPE)");
            assert_eq!(code, -2147024809);
        }
        other => panic!("unexpected {:?}", other),
    }
    let swca = composition(AccentState::Disabled, None);
    assert!(outcome_result(&swca, CallOutcome::Bool { result: 1, last_error: 5 }).is_ok());
    match outcome_result(&swca, CallOutcome::Bool { result: 0, last_error: 0xffff_fffe }) {
        Err(Error::WindowsApi { function, code }) => {
            assert_eq!(function, "SetWindowCompositionAttribute");
            assert_eq!(code, -2);
        }
        other => panic!("unexpected {:?}", other),
    }
    match outcome_result(&swca, CallOutcome::Missing) {
        Err(Error::MissingFunction(f)) => assert_eq!(f, "SetWindowCompositionAttribute"),
        other => panic!("unexpected {:?}", other),
    }
    match outcome_result(&WindowCall::BlurBehind { enable: true }, CallOutcome::Hresult(-1)) {
        Err(Error::WindowsApi { function, code }) => {
            assert_eq!(function, "DwmEnableBlurBehindWindow");
            assert_eq!(code, -1);
        }
        other => panic!("unexpected {:?}", other),
    }
    assert!(hresult(0, "f").is_ok());
    assert!(matches!(hresult(-5, "f"), Err(Error::WindowsApi { function: "f", code: -5 })));
    assert!(bool_result(7, "g", 3).is_ok());
    assert!(matches!(bool_result(0, "g", 3), Err(Error::WindowsApi { function: "g", code: 3 })));
}

#[test]
fn a_run_stops_at_the_first_failure() {
    let calls = clear_all_effects(WIN11);
    let mut run = PlanRun::new(calls.clone());
    let outcomes = [
        CallOutcome::Hresult(0),
        CallOutcome::Hresult(-3),
        CallOutcome::Hresult(0),
        CallOutcome::Hresult(0),
    ];
    let mut made = Vec::new();
    let mut i = 0;
    while let Some(call) = run.next_call() {
        made.push(call);
        run.record(outcomes[i]);
        i += 1;
    }
    assert_eq!(made, calls[..2].to_vec());
    match run.finish() {
        Err(Error::WindowsApi { function, code }) => {
            assert_eq!(function, "DwmSetWindowAttribute(DWMWA_SYSTEMBACKDROP_TYPE)");
            assert_eq!(code, -3);
        }
        other => panic!("unexpected {:?}", other),
    }
}

#[test]
fn a_run_without_failures_makes_every_call() {
    let calls = clear_all_effects(WIN10);
    let mut run = PlanRun::new(calls.clone());
    let mut made = Vec::new();
    while let Some(call) = run.next_call() {
        made.push(call);
        let outcome = match call {
            WindowCall::Composition { .. } => CallOutcome::Bool { result: 1, last_error: 0 },
            _ => CallOutcome::Hresult(0),
        };
        run.record(outcome);
    }
    run.record(CallOutcome::Missing);
    assert_eq!(made, calls);
    assert!(run.finish().is_ok());
}

#[test]
fn error_messages() {
    let e = Error::WindowsApi { function: "DwmEnableBlurBehindWindow", code: -2147467259 };
    assert_eq!(e.message(), "DwmEnableBlurBehindWindow failed with code 0x80004005");
    let e = Error::WindowsApi { function: "f", code: 0 };
    assert_eq!(e.message(), "f failed with code 0x0");
    let e = Error::WindowsApi { function: "f", code: 26 };
    assert_eq!(e.message(), "f failed with code 0x1a");
    let e = Error::MissingFunction("SetWindowCompositionAttribute");
    assert_eq!(e.message(), "SetWindowCompositionAttribute is not available");
    let e = Error::UnsupportedPlatform("Only Windows is supported.");
    assert_eq!(e.message(), "Only Windows is supported.");
    let e = Error::UnsupportedPlatformVersion("\"apply_mica()\" is only available on Windows 11.");
    assert_eq!(e.message(), "\"apply_mica()\" is only available on Windows 11.");
    let e = Error::NoWindowHandle(HandleError::Unavailable);
    assert_eq!(e.message(), "the underlying handle is not available");
    let e: Error = HandleError::NotSupported.into();
    assert_eq!(
        e.message(),
        "the underlying handle cannot be represented using the types in this crate"
    );
}

#[test]
fn window_handles() {
    let win32 = RawWindowHandle::Win32(Win32WindowHandle::new(NonZeroIsize::new(42).unwrap()));
    assert!(matches!(get_hwnd(Ok(win32)), Ok(42)));
    let xlib = RawWindowHandle::Xlib(XlibWindowHandle::new(7));
    assert!(matches!(
        get_hwnd(Ok(xlib)),
        Err(Error::UnsupportedPlatform("Only Windows is supported."))
    ));
    assert!(matches!(
        get_hwnd(Err(HandleError::Unavailable)),
        Err(Error::NoWindowHandle(HandleError::Unavailable))
    ));
    assert!(matches!(hwnd_from_lookup(Some(-9)), Ok(-9)));
    assert!(matches!(
        hwnd_from_lookup(None),
        Err(Error::UnsupportedPlatform("Only Windows is supported."))
    ));
}

#[test]
fn switching_reports_the_apply_step_alone() {
    let cleared = Err(Error::WindowsApi { function: "f", code: -1 });
    assert!(switch_result(cleared, Ok(())).is_ok());
    assert!(matches!(
        switch_result(Ok(()), Err(Error::MissingFunction("g"))),
        Err(Error::MissingFunction("g"))
    ));
}

#[test]
fn best_effect_result_is_the_effect_once_its_calls_succeed() {
    assert!(matches!(best_effect_result(Effect::Mica, Ok(())), Ok(Effect::Mica)));
    assert!(matches!(
        best_effect_result(Effect::Tabbed, Err(Error::WindowsApi { function: "f", code: -7 })),
        Err(Error::WindowsApi { function: "f", code: -7 })
    ));
}

fn slot(call: &WindowCall) -> (u8, u32) {
    match *call {
        WindowCall::SetAttribute { attribute, .. } => (0, attribute.id()),
        WindowCall::BlurBehind { .. } => (1, 0),
        WindowCall::Composition { .. } => (2, 0),
    }
}

#[test]
fn clearing_writes_every_setting_that_applying_wrote() {
    for version in [WIN7, WIN10, WIN11_EARLY, WIN11] {
        let all = clear_all_effects(version);
        let plans = [
            apply_blur(version, None),
            apply_acrylic(version, None),
            apply_mica(version, Some(true)),
            apply_tabbed(version, Some(true)),
        ];
        for plan in plans {
            if let Ok(calls) = plan {
                for call in calls {
                    assert!(all.iter().any(|c| slot(c) == slot(&call)));
                }
            }
        }
    }
    let applied: Vec<_> = apply_mica(WIN11, Some(true)).unwrap().iter().map(slot).collect();
    let cleared: Vec<_> = clear_mica(WIN11).unwrap().iter().map(slot).collect();
    assert_eq!(applied, cleared);
}
