use fishwar::fixed::ONE;
use fishwar::tween::{
    color_plan, hovered_button, normal_button, pressed_button, retarget, scale_plan, ColorTween,
    Interaction, Rgba, ScaleTween, UiColorColorLens,
};
use fishwar::waves::{handle_name, WavesMaterial, WavesPropertiesLens};

#[test]
fn retarget_mirrors_progress() {
    assert_eq!(retarget(Some(300_000)), 700_000);
    assert_eq!(retarget(Some(0)), ONE);
    assert_eq!(retarget(Some(ONE)), 0);
    assert_eq!(retarget(None), 0);
}

#[test]
fn press_mid_hover_reverses_scale() {
    let plan = scale_plan(Interaction::Clicked, Some(Some(250_000))).unwrap();
    assert_eq!(
        plan,
        ScaleTween { start: 850_000, end: 500_000, duration: 525_000, progress: 750_000 }
    );
    assert_eq!(
        scale_plan(Interaction::Clicked, Some(None)),
        Some(ScaleTween { start: 800_000, end: 500_000, duration: 300_000, progress: 0 })
    );
    assert_eq!(scale_plan(Interaction::Clicked, None), None);
}

#[test]
fn leave_mid_animation_reverses() {
    assert_eq!(
        scale_plan(Interaction::Idle, Some(Some(600_000))),
        Some(ScaleTween { start: 800_000, end: ONE, duration: 400_000, progress: 400_000 })
    );
    assert_eq!(
        color_plan(Interaction::Idle, Some(Some(600_000))),
        Some(ColorTween {
            start: hovered_button(),
            end: normal_button(),
            duration: 400_000,
            progress: 400_000
        })
    );
    assert_eq!(scale_plan(Interaction::Idle, None), None);
}

#[test]
fn hover_starts_fresh() {
    assert_eq!(
        scale_plan(Interaction::Hovered, Some(Some(500_000))),
        Some(ScaleTween { start: ONE, end: 800_000, duration: 400_000, progress: 0 })
    );
    assert_eq!(
        color_plan(Interaction::Hovered, None),
        Some(ColorTween { start: normal_button(), end: hovered_button(), duration: 400_000, progress: 0 })
    );
}

#[test]
fn press_mid_hover_reverses_color() {
    let plan = color_plan(Interaction::Clicked, Some(Some(ONE))).unwrap();
    assert_eq!(plan.start, hovered_button());
    assert_eq!(plan.end, pressed_button());
    assert_eq!(plan.progress, 0);
    assert_eq!(plan.duration, 300_000);
    let half = color_plan(Interaction::Clicked, Some(Some(500_000))).unwrap();
    assert_eq!(half.start, Rgba { r: 90_000, g: 525_000, b: 170_000, a: ONE });
    assert_eq!(half.progress, 500_000);
    assert_eq!(half.duration, 450_000);
}

#[test]
fn color_lens_interpolates() {
    let lens = UiColorColorLens { start: normal_button(), end: pressed_button() };
    let mut c = Rgba { r: 0, g: 0, b: 0, a: 0 };
    lens.lerp(&mut c, 0);
    assert_eq!(c, normal_button());
    lens.lerp(&mut c, ONE);
    assert_eq!(c, pressed_button());
}

#[test]
fn waves_lens_keeps_offset_and_time() {
    let lens = WavesPropertiesLens::swell();
    let mut m = WavesMaterial::default();
    m.offset = 123;
    m.time = 456;
    lens.lerp(&mut m, 500_000);
    assert_eq!(m.amplitude, 175_000);
    assert_eq!(m.frequency, 3_250_000);
    assert_eq!(m.angular_velocity, 800_000);
    assert_eq!(m.offset, 123);
    assert_eq!(m.time, 456);
    assert_eq!(m.color, Rgba { r: 590_000, g: 315_000, b: 460_000, a: ONE });
}

#[test]
fn waves_default_material() {
    let m = WavesMaterial::default();
    assert_eq!(m.amplitude, 3_000_000);
    assert_eq!(m.angular_velocity, 300_000);
    assert_eq!(m.frequency, 5_000_000);
    assert_eq!(m.offset, ONE);
    assert_eq!(m.color, Rgba { r: 0, g: ONE, b: 0, a: ONE });
}

#[test]
fn shader_names_pass_through() {
    assert_eq!(handle_name("fragment"), "fragment");
}
