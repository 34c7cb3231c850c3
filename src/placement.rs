use vstd::prelude::*;

verus! {

/// The width and height of a raster, in pixels.
#[derive(Clone, Copy, Debug, PartialEq, Eq, Structural)]
pub struct Size {
    pub width: u32,
    pub height: u32,
}

/// The top-left corner at which a foreground is pasted onto a background.
#[derive(Clone, Copy, Debug, PartialEq, Eq, Structural)]
pub struct Offset {
    pub x: u32,
    pub y: u32,
}

/// Where a foreground of extent `fg` starts on one axis of a background of
/// extent `bg`: the difference of the two floored halves, or 0 where the
/// foreground's half is the larger one (the overhang is then cut off at the
/// far edge).
pub open spec fn centre_axis_spec(bg: nat, fg: nat) -> nat {
    if fg / 2 <= bg / 2 {
        (bg / 2 - fg / 2) as nat
    } else {
        0
    }
}

pub open spec fn centre_offset_spec(bg: Size, fg: Size) -> Offset {
    Offset {
        x: centre_axis_spec(bg.width as nat, fg.width as nat) as u32,
        y: centre_axis_spec(bg.height as nat, fg.height as nat) as u32,
    }
}

/// The centring position on one axis.
pub fn centre_axis(bg: u32, fg: u32) -> (r: u32)
    ensures
        r as nat == centre_axis_spec(bg as nat, fg as nat),
        r <= bg / 2,
{
    let half_bg: u32 = bg / 2;
    let half_fg: u32 = fg / 2;
    if half_fg <= half_bg {
        half_bg - half_fg
    } else {
        0
    }
}

/// The offset that centres a foreground of size `fg` on a background of
/// size `bg`, clamped to 0 on an axis where the foreground is the larger.
pub fn centre_offset(bg: Size, fg: Size) -> (r: Offset)
    ensures
        r == centre_offset_spec(bg, fg),
{
    Offset { x: centre_axis(bg.width, fg.width), y: centre_axis(bg.height, fg.height) }
}

/// Where the foreground's floored half fits inside the background's, the
/// foreground's centre (rounded down) lands on the background's centre
/// (rounded down); otherwise it starts at the background's edge.
pub proof fn lemma_centred(bg: Size, fg: Size)
    ensures
        fg.width / 2 <= bg.width / 2 ==> centre_offset_spec(bg, fg).x + fg.width / 2
            == bg.width / 2,
        fg.height / 2 <= bg.height / 2 ==> centre_offset_spec(bg, fg).y + fg.height / 2
            == bg.height / 2,
        fg.width / 2 > bg.width / 2 ==> centre_offset_spec(bg, fg).x == 0,
        fg.height / 2 > bg.height / 2 ==> centre_offset_spec(bg, fg).y == 0,
{
}

} // verus!
