//! Colours of the menu, in hundredths per channel.
use vstd::prelude::*;

verus! {

/// Largest value of a colour channel: full intensity, or fully opaque.
pub const CHANNEL_MAX: u8 = 100;

/// A colour as red, green, blue and opacity, each in hundredths (0 to 100).
#[derive(Clone, Copy, Debug, PartialEq, Eq, Structural)]
pub struct Shade {
    pub red: u8,
    pub green: u8,
    pub blue: u8,
    pub alpha: u8,
}

impl Shade {
    /// Every channel lies within 0 to 100.
    pub open spec fn wf(self) -> bool {
        &&& self.red <= CHANNEL_MAX
        &&& self.green <= CHANNEL_MAX
        &&& self.blue <= CHANNEL_MAX
        &&& self.alpha <= CHANNEL_MAX
    }

    /// The opaque grey whose three colour channels are all `level`.
    pub open spec fn grey_spec(level: u8) -> Shade {
        Shade { red: level, green: level, blue: level, alpha: CHANNEL_MAX }
    }

    /// The fully transparent colour.
    pub open spec fn transparent_spec() -> Shade {
        Shade { red: 0, green: 0, blue: 0, alpha: 0 }
    }

    /// An opaque grey whose three colour channels are all `level`.
    pub fn grey(level: u8) -> (r: Shade)
        requires
            level <= CHANNEL_MAX,
        ensures
            r == Shade::grey_spec(level),
            r.wf(),
    {
        Shade { red: level, green: level, blue: level, alpha: CHANNEL_MAX }
    }

    /// The fully transparent colour.
    pub fn transparent() -> (r: Shade)
        ensures
            r == Shade::transparent_spec(),
            r.wf(),
    {
        Shade { red: 0, green: 0, blue: 0, alpha: 0 }
    }
}

/// Grey level of a button at rest.
pub const NORMAL_GREY: u8 = 15;

/// Grey level of a button under the pointer.
pub const HOVERED_GREY: u8 = 25;

/// Grey level of label text.
pub const LABEL_GREY: u8 = 90;

/// The two backgrounds of a button: at rest, and under the pointer.
#[derive(Clone, Copy, Debug, PartialEq, Eq, Structural)]
pub struct ButtonColors {
    pub normal: Shade,
    pub hovered: Shade,
}

impl ButtonColors {
    /// Both shades are well formed.
    pub open spec fn wf(self) -> bool {
        self.normal.wf() && self.hovered.wf()
    }

    /// Colours of a button whose background is transparent at rest and
    /// the usual hovered grey under the pointer.
    pub fn see_through() -> (r: ButtonColors)
        ensures
            r.normal == Shade::transparent_spec(),
            r.hovered == Shade::grey_spec(HOVERED_GREY),
            r.wf(),
    {
        ButtonColors { normal: Shade::transparent(), hovered: Shade::grey(HOVERED_GREY) }
    }
}

impl Default for ButtonColors {
    /// A grey button that lightens under the pointer.
    fn default() -> (r: ButtonColors)
        ensures
            r.normal == Shade::grey_spec(NORMAL_GREY),
            r.hovered == Shade::grey_spec(HOVERED_GREY),
            r.wf(),
    {
        ButtonColors { normal: Shade::grey(NORMAL_GREY), hovered: Shade::grey(HOVERED_GREY) }
    }
}

} // verus!
