//! The brightness level of a backlight device and the arithmetic that
//! hotkey presses apply to it.

use vstd::prelude::*;
use vstd::string::*;

use crate::decimal::digit_char;
use crate::decimal::digit_str;

verus! {

/// One backlight device's state: the present level, the device-reported
/// ceiling, and the floor, which is fixed at 1 so that a hotkey can never
/// turn the display fully dark.
#[derive(Debug, Clone, Copy, PartialEq, Eq, Structural)]
pub struct BacklightConfig {
    pub brightness: i16,
    pub max: i16,
    pub min: i16,
}

/// The clamping rule: the new level is the old one plus `increment`,
/// pulled down to `max` when it overshoots and up to `min` when the sum
/// is zero or below.  The comparison threshold is 0 while the clamp
/// target is `min`: the asymmetry protects the device floor and is kept
/// deliberately.
pub open spec fn clamped_brightness(state: BacklightConfig, increment: int) -> int {
    let value = state.brightness + increment;
    if value > state.max {
        state.max as int
    } else if value <= 0 {
        state.min as int
    } else {
        value
    }
}

impl BacklightConfig {
    /// A device state as `load` constructs it: the floor is 1 and does
    /// not exceed the ceiling.
    pub open spec fn wf(self) -> bool {
        self.min == 1 && self.min <= self.max
    }

    /// The level sits between the floor and the ceiling.
    pub open spec fn in_range(self) -> bool {
        self.min <= self.brightness <= self.max
    }

    /// Builds the state from the two values read out of the device's
    /// `max_brightness` and `brightness` attributes; the floor is fixed
    /// at 1.
    pub fn from_config(max_brightness: i16, current_brightness: i16) -> (state: BacklightConfig)
        ensures
            state.brightness == current_brightness,
            state.max == max_brightness,
            state.min == 1,
    {
        BacklightConfig { brightness: current_brightness, max: max_brightness, min: 1 }
    }

    /// Applies one hotkey step: adds `increment` and clamps the sum into
    /// the device's range.  The ceiling and the floor are untouched, and
    /// on a well-formed state the new level always lands inside
    /// `[min, max]`, whatever the old level and the increment were.
    pub fn change_brightness(&mut self, increment: i16)
        ensures
            final (self).brightness == clamped_brightness(*old(self), increment as int),
            final (self).max == old(self).max,
            final (self).min == old(self).min,
            old(self).wf() ==> final (self).in_range(),
    {
        let value: i32 = self.brightness as i32 + increment as i32;
        if value > self.max as i32 {
            self.brightness = self.max;
        } else if value <= 0 {
            self.brightness = self.min;
        } else {
            self.brightness = value as i16;
        }
    }
}

/// The level as a share of the ceiling, in thousandths, rounded to the
/// nearest thousandth with halves rounded up.
pub open spec fn ratio_thousandths(brightness: int, max: int) -> int {
    (2000 * brightness + max) / (2 * max)
}

/// A ratio of `t` thousandths as text with exactly three digits after
/// the decimal point.
pub open spec fn percentage_chars(t: int) -> Seq<char> {
    if t >= 1000 {
        seq!['1', '.', '0', '0', '0']
    } else {
        seq!['0', '.', digit_char(t / 100), digit_char((t / 10) % 10), digit_char(t % 10)]
    }
}

/// The text that `percentage` renders for a state.
pub open spec fn percentage_spec(state: BacklightConfig) -> Seq<char> {
    percentage_chars(ratio_thousandths(state.brightness as int, state.max as int))
}

impl BacklightConfig {
    /// The level as a share of the device's ceiling, formatted with three
    /// digits after the decimal point — the form the display backend
    /// expects for its brightness argument.
    pub fn percentage(&self) -> (r: String)
        requires
            1 <= self.brightness <= self.max,
        ensures
            r@ == percentage_spec(*self),
    {
        let b = self.brightness as u32;
        let m = self.max as u32;
        let t: u32 = (2000 * b + m) / (2 * m);
        if t >= 1000 {
            let r = "1.000".to_owned();
            proof {
                reveal_strlit("1.000");
                assert(r@ =~= percentage_spec(*self));
            }
            r
        } else {
            let r = "0.".to_owned().concat(digit_str(t / 100)).concat(
                digit_str((t / 10) % 10),
            ).concat(digit_str(t % 10));
            proof {
                reveal_strlit("0.");
                assert(r@ =~= percentage_spec(*self));
            }
            r
        }
    }
}

/// When the level sits exactly at the ceiling the formatted ratio is the
/// literal "1.000".
pub proof fn lemma_percentage_at_max(state: BacklightConfig)
    requires
        1 <= state.brightness,
        state.brightness == state.max,
    ensures
        percentage_spec(state) == "1.000"@,
{
    let m = state.max as int;
    vstd::arithmetic::div_mod::lemma_fundamental_div_mod_converse(2000 * m + m, 2 * m, 1000, m);
    reveal_strlit("1.000");
    assert(percentage_chars(1000) =~= "1.000"@);
}

/// Changing saturates at the boundaries: an increment that overshoots
/// the ceiling lands exactly on the ceiling, one that pulls the sum to
/// zero or below lands exactly on the floor, and at either boundary any
/// further push in the same direction moves nothing.
pub proof fn lemma_change_saturates(state: BacklightConfig, increment: int)
    requires
        state.wf(),
    ensures
        state.brightness + increment > state.max ==> clamped_brightness(state, increment)
            == state.max,
        state.brightness + increment <= 0 ==> clamped_brightness(state, increment) == state.min,
        increment >= 0 ==> clamped_brightness(
            (BacklightConfig { brightness: state.max, ..state }),
            increment,
        ) == state.max,
        increment <= -1 ==> clamped_brightness(
            (BacklightConfig { brightness: state.min, ..state }),
            increment,
        ) == state.min,
{
}

} // verus!
