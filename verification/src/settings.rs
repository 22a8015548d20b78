//! The persisted brightness preferences, one slot per actionable
//! power condition.

use vstd::prelude::*;
use crate::power::PowerCondition;

verus! {

/// The largest brightness the display accepts, as a percentage.
pub const MAX_BRIGHTNESS: u8 = 100;

/// One brightness preference per actionable power condition. Both
/// values are percentages in `0..=100`.
#[derive(Clone, Copy, Debug, PartialEq, Eq, Structural)]
pub struct Settings {
    pub ac_brightness: u8,
    pub dc_brightness: u8,
}

impl Settings {
    /// Both slots are within the display's valid brightness range.
    pub open spec fn wf(self) -> bool {
        self.ac_brightness <= MAX_BRIGHTNESS && self.dc_brightness <= MAX_BRIGHTNESS
    }

    /// The brightness slot that belongs to `cond`.
    pub open spec fn spec_brightness_for(self, cond: PowerCondition) -> u8
        recommends cond.spec_actionable(),
    {
        if cond == PowerCondition::Ac {
            self.ac_brightness
        } else {
            self.dc_brightness
        }
    }

    /// The brightness to apply while running from `cond`. This is what
    /// the delayed task reads at execution time, so a submission never
    /// captures a value that could go stale.
    pub fn brightness_for(&self, cond: PowerCondition) -> (r: u8)
        requires
            cond.spec_actionable(),
        ensures
            r == self.spec_brightness_for(cond),
            self.wf() ==> r <= MAX_BRIGHTNESS,
    {
        match cond {
            PowerCondition::Ac => self.ac_brightness,
            _ => self.dc_brightness,
        }
    }

    /// Overwrite the slot that belongs to `cond` and leave the other
    /// slot untouched.
    pub fn set_brightness_for(&mut self, cond: PowerCondition, value: u8)
        requires
            cond.spec_actionable(),
            value <= MAX_BRIGHTNESS,
            old(self).wf(),
        ensures
            final(self).wf(),
            final(self).spec_brightness_for(cond) == value,
            cond == PowerCondition::Ac ==> *final(self) == (Settings {
                ac_brightness: value,
                ..*old(self)
            }),
            cond == PowerCondition::Dc ==> *final(self) == (Settings {
                dc_brightness: value,
                ..*old(self)
            }),
    {
        match cond {
            PowerCondition::Ac => {
                self.ac_brightness = value;
            }
            _ => {
                self.dc_brightness = value;
            }
        }
    }
}

impl Default for Settings {
    /// The defaults when nothing was persisted yet: full brightness on
    /// mains, minimum brightness on battery.
    fn default() -> (s: Self)
        ensures
            s == (Settings { ac_brightness: 100u8, dc_brightness: 0u8 }),
            s.wf(),
    {
        Settings { ac_brightness: 100, dc_brightness: 0 }
    }
}

} // verus!
