use vstd::prelude::*;
use crate::fixed::{lerp, lerp_spec, ONE};
use crate::tween::{normal_button, normal_button_spec, rgba_lerp, rgba_lerp_spec, Rgba};

verus! {

/// The parameters of the wave shader, each a fraction of `ONE`: the curve is
/// `amplitude * sin(angular_velocity + x + frequency * time) + offset`, filled
/// with `color` below it.
#[derive(Clone, Copy, Debug, PartialEq, Eq, Structural)]
pub struct WavesMaterial {
    pub amplitude: u64,
    pub angular_velocity: u64,
    pub frequency: u64,
    pub offset: u64,
    pub color: Rgba,
    pub time: u64,
}

impl Default for WavesMaterial {
    fn default() -> (m: WavesMaterial)
        ensures
            m == (WavesMaterial {
                amplitude: 3_000_000,
                angular_velocity: 300_000,
                frequency: 5_000_000,
                offset: ONE,
                color: Rgba { r: 0, g: ONE, b: 0, a: ONE },
                time: 0,
            }),
    {
        WavesMaterial {
            amplitude: 3_000_000,
            angular_velocity: 300_000,
            frequency: 5_000_000,
            offset: ONE,
            color: Rgba { r: 0, g: ONE, b: 0, a: ONE },
            time: 0,
        }
    }
}

/// Animates the shape and colour of the waves between two materials; the
/// offset and the time are left to their own systems.
#[derive(Clone, Copy, Debug, PartialEq, Eq, Structural)]
pub struct WavesPropertiesLens {
    pub start: WavesMaterial,
    pub end: WavesMaterial,
}

impl WavesPropertiesLens {
    /// The slow swell of the background: from sea green, calm, to pink, choppier.
    pub fn swell() -> (l: WavesPropertiesLens)
        ensures
            l.start == (WavesMaterial {
                amplitude: 200_000,
                angular_velocity: 800_000,
                frequency: 3_000_000,
                offset: 0,
                color: normal_button_spec(),
                time: 0,
            }),
            l.end == (WavesMaterial {
                amplitude: 150_000,
                angular_velocity: 800_000,
                frequency: 3_500_000,
                offset: 0,
                color: Rgba { r: ONE, g: 80_000, b: 580_000, a: ONE },
                time: 0,
            }),
    {
        WavesPropertiesLens {
            start: WavesMaterial {
                amplitude: 200_000,
                angular_velocity: 800_000,
                frequency: 3_000_000,
                offset: 0,
                color: normal_button(),
                time: 0,
            },
            end: WavesMaterial {
                amplitude: 150_000,
                angular_velocity: 800_000,
                frequency: 3_500_000,
                offset: 0,
                color: Rgba { r: ONE, g: 80_000, b: 580_000, a: ONE },
                time: 0,
            },
        }
    }

    /// Sets the animated fields of `target` to their values at `ratio`.
    pub fn lerp(&self, target: &mut WavesMaterial, ratio: u64)
        requires
            ratio <= ONE,
        ensures
            final(target).color == rgba_lerp_spec(self.start.color, self.end.color, ratio),
            final(target).frequency == lerp_spec(self.start.frequency, self.end.frequency, ratio),
            final(target).amplitude == lerp_spec(self.start.amplitude, self.end.amplitude, ratio),
            final(target).angular_velocity == lerp_spec(
                self.start.angular_velocity,
                self.end.angular_velocity,
                ratio,
            ),
            final(target).offset == old(target).offset,
            final(target).time == old(target).time,
    {
        target.color = rgba_lerp(self.start.color, self.end.color, ratio);
        target.frequency = lerp(self.start.frequency, self.end.frequency, ratio);
        target.amplitude = lerp(self.start.amplitude, self.end.amplitude, ratio);
        target.angular_velocity = lerp(
            self.start.angular_velocity,
            self.end.angular_velocity,
            ratio,
        );
    }
}

/// The name under which a compiled shader module is stored: its entry point's name.
pub fn handle_name(name: &str) -> (r: &str)
    ensures
        r@ == name@,
{
    name
}

} // verus!
