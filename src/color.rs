use vstd::prelude::*;

verus! {

/// The light colors the player can unlock and equip.
#[derive(Clone, Copy, Debug, PartialEq, Eq, Structural)]
pub enum LightColor {
    Green,
    Purple,
    White,
    Blue,
}

/// One boolean flag per light color.
#[derive(Clone, Copy, Debug, PartialEq, Eq, Structural)]
pub struct ColorFlags {
    pub green: bool,
    pub purple: bool,
    pub white: bool,
    pub blue: bool,
}

impl ColorFlags {
    /// The flag held for `c`.
    pub open spec fn at(self, c: LightColor) -> bool {
        match c {
            LightColor::Green => self.green,
            LightColor::Purple => self.purple,
            LightColor::White => self.white,
            LightColor::Blue => self.blue,
        }
    }

    /// These flags with the one for `c` replaced by `v`.
    pub open spec fn with(self, c: LightColor, v: bool) -> ColorFlags {
        match c {
            LightColor::Green => ColorFlags { green: v, ..self },
            LightColor::Purple => ColorFlags { purple: v, ..self },
            LightColor::White => ColorFlags { white: v, ..self },
            LightColor::Blue => ColorFlags { blue: v, ..self },
        }
    }

    /// The flags that hold `f(c)` for each color `c`.
    pub open spec fn from_fn(f: spec_fn(LightColor) -> bool) -> ColorFlags {
        ColorFlags {
            green: f(LightColor::Green),
            purple: f(LightColor::Purple),
            white: f(LightColor::White),
            blue: f(LightColor::Blue),
        }
    }

    /// All flags false.
    pub fn none() -> (r: ColorFlags)
        ensures
            forall|c: LightColor| !#[trigger] r.at(c),
    {
        ColorFlags { green: false, purple: false, white: false, blue: false }
    }

    pub fn get(&self, c: LightColor) -> (r: bool)
        ensures
            r == self.at(c),
    {
        match c {
            LightColor::Green => self.green,
            LightColor::Purple => self.purple,
            LightColor::White => self.white,
            LightColor::Blue => self.blue,
        }
    }

    pub fn set(&mut self, c: LightColor, v: bool)
        ensures
            *final(self) == old(self).with(c, v),
            final(self).at(c) == v,
            forall|d: LightColor| d != c ==> #[trigger] final(self).at(d) == old(self).at(d),
    {
        match c {
            LightColor::Green => self.green = v,
            LightColor::Purple => self.purple = v,
            LightColor::White => self.white = v,
            LightColor::Blue => self.blue = v,
        }
    }
}

} // verus!
