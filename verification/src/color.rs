use vstd::prelude::*;

verus! {

/// The hue-to-RGB conversion at full saturation and half lightness, the one
/// operating point the animations use. Standard HSL conversion: the circle
/// splits into six 60-degree sectors; inside a sector one channel ramps
/// linearly between 0 and 255 while the two others sit at the sector's
/// endpoints.
pub open spec fn spec_hue_to_rgb(hue: int) -> (u8, u8, u8)
    recommends
        0 <= hue < 360,
{
    let sector = hue / 60;
    let up = (255 * (hue % 60) / 60) as u8;
    let down = (255 * (60 - hue % 60) / 60) as u8;
    if sector == 0 {
        (255, up, 0)
    } else if sector == 1 {
        (down, 255, 0)
    } else if sector == 2 {
        (0, 255, up)
    } else if sector == 3 {
        (0, down, 255)
    } else if sector == 4 {
        (up, 0, 255)
    } else {
        (255, 0, down)
    }
}

/// Converts a hue angle in degrees to an RGB triple, at full saturation and
/// half lightness. Callers reduce the angle modulo 360 first.
pub fn hue_to_rgb(hue: u16) -> (rgb: (u8, u8, u8))
    requires
        hue < 360,
    ensures
        rgb == spec_hue_to_rgb(hue as int),
{
    let sector = hue / 60;
    let frac: u16 = hue % 60;
    proof {
        assert(255 * (hue as int % 60) <= 255 * 59) by {
            assert(hue as int % 60 <= 59);
        };
        assert(255 * (hue as int % 60) / 60 <= 255 * 59 / 60) by {
            vstd::arithmetic::div_mod::lemma_div_is_ordered(
                255 * (hue as int % 60),
                255int * 59,
                60,
            );
        };
        assert(255 * (60 - hue as int % 60) / 60 <= 255 * 60 / 60) by {
            vstd::arithmetic::div_mod::lemma_div_is_ordered(
                255 * (60 - hue as int % 60),
                255int * 60,
                60,
            );
        };
    }
    let up: u8 = (255 * (frac as u32) / 60) as u8;
    let down: u8 = (255 * (60 - frac as u32) / 60) as u8;
    if sector == 0 {
        (255, up, 0)
    } else if sector == 1 {
        (down, 255, 0)
    } else if sector == 2 {
        (0, 255, up)
    } else if sector == 3 {
        (0, down, 255)
    } else if sector == 4 {
        (up, 0, 255)
    } else {
        (255, 0, down)
    }
}

} // verus!
