use vstd::prelude::*;
use crate::fixed::{lerp, lerp_spec, ONE};

verus! {

/// A colour with red, green, blue and alpha each a fraction of `ONE`.
#[derive(Clone, Copy, Debug, PartialEq, Eq, Structural)]
pub struct Rgba {
    pub r: u64,
    pub g: u64,
    pub b: u64,
    pub a: u64,
}

/// Component-wise interpolation of two colours.
pub open spec fn rgba_lerp_spec(start: Rgba, end: Rgba, ratio: u64) -> Rgba {
    Rgba {
        r: lerp_spec(start.r, end.r, ratio) as u64,
        g: lerp_spec(start.g, end.g, ratio) as u64,
        b: lerp_spec(start.b, end.b, ratio) as u64,
        a: lerp_spec(start.a, end.a, ratio) as u64,
    }
}

pub fn rgba_lerp(start: Rgba, end: Rgba, ratio: u64) -> (c: Rgba)
    requires
        ratio <= ONE,
    ensures
        c == rgba_lerp_spec(start, end, ratio),
{
    Rgba {
        r: lerp(start.r, end.r, ratio),
        g: lerp(start.g, end.g, ratio),
        b: lerp(start.b, end.b, ratio),
        a: lerp(start.a, end.a, ratio),
    }
}

pub open spec fn normal_button_spec() -> Rgba {
    Rgba { r: 180_000, g: 550_000, b: 340_000, a: ONE }
}

pub open spec fn hovered_button_spec() -> Rgba {
    Rgba { r: 0, g: 500_000, b: 0, a: ONE }
}

pub open spec fn pressed_button_spec() -> Rgba {
    Rgba { r: 100_000, g: 100_000, b: 440_000, a: ONE }
}

/// The start button at rest (sea green).
pub fn normal_button() -> (c: Rgba)
    ensures
        c == normal_button_spec(),
{
    Rgba { r: 180_000, g: 550_000, b: 340_000, a: ONE }
}

/// The start button under the pointer (dark green).
pub fn hovered_button() -> (c: Rgba)
    ensures
        c == hovered_button_spec(),
{
    Rgba { r: 0, g: 500_000, b: 0, a: ONE }
}

/// The start button while pressed (midnight blue).
pub fn pressed_button() -> (c: Rgba)
    ensures
        c == pressed_button_spec(),
{
    Rgba { r: 100_000, g: 100_000, b: 440_000, a: ONE }
}

/// How the pointer relates to the start button this frame.
#[derive(Clone, Copy, Debug, PartialEq, Eq, Structural)]
pub enum Interaction {
    Clicked,
    Hovered,
    Idle,
}

/// A scale animation to install: from `start` to `end` over `duration`
/// (millionths of a second), beginning at `progress` (a fraction of `ONE`).
#[derive(Clone, Copy, Debug, PartialEq, Eq, Structural)]
pub struct ScaleTween {
    pub start: u64,
    pub end: u64,
    pub duration: u64,
    pub progress: u64,
}

/// A colour animation to install, laid out as `ScaleTween`.
#[derive(Clone, Copy, Debug, PartialEq, Eq, Structural)]
pub struct ColorTween {
    pub start: Rgba,
    pub end: Rgba,
    pub duration: u64,
    pub progress: u64,
}

/// The progress a replacing animation starts at: the mirror of the one it
/// interrupts, or zero when none was running.
pub open spec fn retarget_spec(progress: Option<u64>) -> u64 {
    match progress {
        Some(p) => (ONE - p) as u64,
        None => 0,
    }
}

/// A progress reading that makes sense: within `[0, ONE]`.
pub open spec fn progress_ok(progress: Option<u64>) -> bool {
    progress matches Some(p) ==> p <= ONE
}

/// An animator reading: absent, present without an animation, or present with
/// one at the given progress.
pub open spec fn animator_ok(animator: Option<Option<u64>>) -> bool {
    animator matches Some(inner) ==> progress_ok(inner)
}

/// The starting progress of an animation that replaces a running one.
pub fn retarget(progress: Option<u64>) -> (r: u64)
    requires
        progress_ok(progress),
    ensures
        r == retarget_spec(progress),
        r <= ONE,
{
    match progress {
        Some(p) => ONE - p,
        None => 0,
    }
}

/// Length of the press animation that mirrors a hover at `progress`: 0.3 s
/// plus 0.3 s for each whole of the remaining progress.
pub open spec fn press_duration(target: u64) -> u64 {
    (300_000 + 3 * target / 10) as u64
}

pub open spec fn scale_plan_spec(interaction: Interaction, animator: Option<Option<u64>>) -> Option<
    ScaleTween,
> {
    match (interaction, animator) {
        (Interaction::Clicked, Some(Some(p))) => Some(
            ScaleTween {
                start: (800_000 + p / 5) as u64,
                end: 500_000,
                duration: press_duration((ONE - p) as u64),
                progress: (ONE - p) as u64,
            },
        ),
        (Interaction::Clicked, Some(None)) => Some(
            ScaleTween { start: 800_000, end: 500_000, duration: 300_000, progress: 0 },
        ),
        (Interaction::Hovered, _) => Some(
            ScaleTween { start: ONE, end: 800_000, duration: 400_000, progress: 0 },
        ),
        (Interaction::Idle, Some(inner)) => Some(
            ScaleTween { start: 800_000, end: ONE, duration: 400_000, progress: retarget_spec(inner) },
        ),
        _ => None,
    }
}

pub open spec fn color_plan_spec(interaction: Interaction, animator: Option<Option<u64>>) -> Option<
    ColorTween,
> {
    match (interaction, animator) {
        (Interaction::Clicked, Some(Some(p))) => Some(
            ColorTween {
                start: rgba_lerp_spec(normal_button_spec(), hovered_button_spec(), p),
                end: pressed_button_spec(),
                duration: press_duration((ONE - p) as u64),
                progress: (ONE - p) as u64,
            },
        ),
        (Interaction::Clicked, Some(None)) => Some(
            ColorTween {
                start: hovered_button_spec(),
                end: pressed_button_spec(),
                duration: 300_000,
                progress: 0,
            },
        ),
        (Interaction::Hovered, _) => Some(
            ColorTween {
                start: normal_button_spec(),
                end: hovered_button_spec(),
                duration: 400_000,
                progress: 0,
            },
        ),
        (Interaction::Idle, Some(inner)) => Some(
            ColorTween {
                start: hovered_button_spec(),
                end: normal_button_spec(),
                duration: 400_000,
                progress: retarget_spec(inner),
            },
        ),
        _ => None,
    }
}

/// The scale animation the start button gets for an interaction, given its
/// current scale animator; `None` leaves the button as it is.
pub fn scale_plan(interaction: Interaction, animator: Option<Option<u64>>) -> (r: Option<ScaleTween>)
    requires
        animator_ok(animator),
    ensures
        r == scale_plan_spec(interaction, animator),
{
    match interaction {
        Interaction::Clicked => match animator {
            Some(Some(p)) => {
                let target = retarget(Some(p));
                Some(
                    ScaleTween {
                        start: 800_000 + p / 5,
                        end: 500_000,
                        duration: 300_000 + 3 * target / 10,
                        progress: target,
                    },
                )
            },
            Some(None) => Some(
                ScaleTween { start: 800_000, end: 500_000, duration: 300_000, progress: 0 },
            ),
            None => None,
        },
        Interaction::Hovered => Some(
            ScaleTween { start: ONE, end: 800_000, duration: 400_000, progress: 0 },
        ),
        Interaction::Idle => match animator {
            Some(inner) => Some(
                ScaleTween { start: 800_000, end: ONE, duration: 400_000, progress: retarget(inner) },
            ),
            None => None,
        },
    }
}

/// The colour animation the start button gets for an interaction, given its
/// current colour animator; `None` leaves the button as it is.
pub fn color_plan(interaction: Interaction, animator: Option<Option<u64>>) -> (r: Option<ColorTween>)
    requires
        animator_ok(animator),
    ensures
        r == color_plan_spec(interaction, animator),
{
    match interaction {
        Interaction::Clicked => match animator {
            Some(Some(p)) => {
                let target = retarget(Some(p));
                Some(
                    ColorTween {
                        start: rgba_lerp(normal_button(), hovered_button(), p),
                        end: pressed_button(),
                        duration: 300_000 + 3 * target / 10,
                        progress: target,
                    },
                )
            },
            Some(None) => Some(
                ColorTween {
                    start: hovered_button(),
                    end: pressed_button(),
                    duration: 300_000,
                    progress: 0,
                },
            ),
            None => None,
        },
        Interaction::Hovered => Some(
            ColorTween {
                start: normal_button(),
                end: hovered_button(),
                duration: 400_000,
                progress: 0,
            },
        ),
        Interaction::Idle => match animator {
            Some(inner) => Some(
                ColorTween {
                    start: hovered_button(),
                    end: normal_button(),
                    duration: 400_000,
                    progress: retarget(inner),
                },
            ),
            None => None,
        },
    }
}

/// Animates a colour from `start` to `end`.
#[derive(Clone, Copy, Debug, PartialEq, Eq, Structural)]
pub struct UiColorColorLens {
    pub start: Rgba,
    pub end: Rgba,
}

impl UiColorColorLens {
    /// Sets `target` to the colour at `ratio` of the way.
    pub fn lerp(&self, target: &mut Rgba, ratio: u64)
        requires
            ratio <= ONE,
        ensures
            *final(target) == rgba_lerp_spec(self.start, self.end, ratio),
    {
        *target = rgba_lerp(self.start, self.end, ratio);
    }
}

/// Whenever an animation that was running is interrupted by a new target, the
/// replacing animation, for scale and for colour alike, starts at one minus
/// the progress it interrupted.
pub proof fn lemma_retarget_mirrors(interaction: Interaction, p: u64)
    requires
        p <= ONE,
        interaction != Interaction::Hovered,
    ensures
        retarget_spec(Some(p)) == ONE - p,
        scale_plan_spec(interaction, Some(Some(p))) matches Some(t) && t.progress == ONE - p,
        color_plan_spec(interaction, Some(Some(p))) matches Some(t) && t.progress == ONE - p,
        scale_plan_spec(interaction, Some(None)) matches Some(t) && t.progress == 0,
        color_plan_spec(interaction, Some(None)) matches Some(t) && t.progress == 0,
{
}

} // verus!
