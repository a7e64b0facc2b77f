use vstd::prelude::*;

use crate::pixel::PixelType;

verus! {

/// One channel of an image: its name, sample encoding and subsampling factors.
#[derive(Debug, Clone, PartialEq, Eq)]
pub struct Channel {
    pub name: String,
    pub pixel_type: PixelType,
    /// Horizontal subsampling: one sample for every `x_sampling` pixels of a row.
    pub x_sampling: u32,
    /// Vertical subsampling: one sample row for every `y_sampling` pixel rows.
    pub y_sampling: u32,
}

impl Channel {
    /// Subsampling factors are positive.
    pub open spec fn wf(&self) -> bool {
        self.x_sampling >= 1 && self.y_sampling >= 1
    }
}

/// Every channel of the list is well formed.
pub open spec fn channels_wf(channels: Seq<Channel>) -> bool {
    forall|i: int| 0 <= i < channels.len() ==> #[trigger] channels[i].wf()
}

/// Where a block lies: the full image size, the resolution level, and the
/// block's origin and nominal size within that level.
#[derive(Debug, Clone, Copy, PartialEq, Eq)]
pub struct BlockGeometry {
    pub image_width: u32,
    pub image_height: u32,
    /// Resolution level along x: the image width is halved this many times.
    pub level_x: u32,
    /// Resolution level along y: the image height is halved this many times.
    pub level_y: u32,
    /// Left edge of the block, in pixels of its level.
    pub origin_x: u32,
    /// Top edge of the block, in pixels of its level.
    pub origin_y: u32,
    /// Width of a whole block (the tile width, or the image width for scan lines).
    pub nominal_width: u32,
    /// Height of a whole block (the tile height, or the scan lines per block).
    pub nominal_height: u32,
}

/// One step down the resolution pyramid: half the size, rounded down, but never 0.
pub open spec fn halve(size: nat) -> nat {
    if size / 2 == 0 {
        1
    } else {
        size / 2
    }
}

/// The size of a dimension of `size` pixels at resolution level `level`.
pub open spec fn level_size(size: nat, level: nat) -> nat
    decreases level,
{
    if level == 0 {
        size
    } else {
        level_size(halve(size), (level - 1) as nat)
    }
}

/// The part of `[origin, origin + nominal)` that lies inside `[0, bound)`.
pub open spec fn clipped(origin: nat, nominal: nat, bound: nat) -> nat {
    if origin >= bound {
        0
    } else if nominal <= bound - origin {
        nominal
    } else {
        (bound - origin) as nat
    }
}

/// `a / b`, rounded up.
pub open spec fn ceil_div(a: nat, b: nat) -> nat {
    if a % b == 0 {
        a / b
    } else {
        a / b + 1
    }
}

impl BlockGeometry {
    /// The block's width, clipped to its level's bounds.
    pub open spec fn spec_width(self) -> nat {
        clipped(
            self.origin_x as nat,
            self.nominal_width as nat,
            level_size(self.image_width as nat, self.level_x as nat),
        )
    }

    /// The block's height, clipped to its level's bounds.
    pub open spec fn spec_height(self) -> nat {
        clipped(
            self.origin_y as nat,
            self.nominal_height as nat,
            level_size(self.image_height as nat, self.level_y as nat),
        )
    }

    pub open spec fn spec_pixel_count(self) -> nat {
        self.spec_width() * self.spec_height()
    }

    /// The number of samples a channel holds in a block of this geometry.
    pub open spec fn spec_sample_count(self, channel: Channel) -> nat {
        ceil_div(self.spec_width(), channel.x_sampling as nat) * ceil_div(
            self.spec_height(),
            channel.y_sampling as nat,
        )
    }

    /// The block's width, clipped to its level's bounds.
    pub fn width(&self) -> (r: u32)
        ensures
            r == self.spec_width(),
    {
        let bound = level_size_of(self.image_width, self.level_x);
        clip(self.origin_x, self.nominal_width, bound)
    }

    /// The block's height, clipped to its level's bounds.
    pub fn height(&self) -> (r: u32)
        ensures
            r == self.spec_height(),
    {
        let bound = level_size_of(self.image_height, self.level_y);
        clip(self.origin_y, self.nominal_height, bound)
    }

    /// The number of pixel positions in the block.
    pub fn pixel_count(&self) -> (r: u64)
        ensures
            r == self.spec_pixel_count(),
    {
        let w = self.width() as u64;
        let h = self.height() as u64;
        proof {
            lemma_mul_u32_fits(w as nat, h as nat);
        }
        w * h
    }

    /// The number of samples `channel` holds in a block of this geometry.
    pub fn sample_count(&self, channel: &Channel) -> (r: u64)
        requires
            channel.wf(),
        ensures
            r == self.spec_sample_count(*channel),
    {
        let w = ceil_div_of(self.width(), channel.x_sampling) as u64;
        let h = ceil_div_of(self.height(), channel.y_sampling) as u64;
        proof {
            lemma_mul_u32_fits(w as nat, h as nat);
        }
        w * h
    }
}

proof fn lemma_mul_u32_fits(a: nat, b: nat)
    requires
        a <= u32::MAX,
        b <= u32::MAX,
    ensures
        a * b <= u64::MAX,
{
    assert(a * b <= u32::MAX * u32::MAX) by (nonlinear_arith)
        requires
            a <= u32::MAX,
            b <= u32::MAX,
    ;
}

proof fn lemma_level_size_of_small(size: nat, level: nat)
    requires
        size <= 1,
        level > 0,
    ensures
        level_size(size, level) == 1,
    decreases level,
{
    assert(halve(size) == 1);
    assert(level_size(size, level) == level_size(1, (level - 1) as nat));
    if level > 1 {
        lemma_level_size_of_small(1, (level - 1) as nat);
    }
}

/// The size of a dimension of `size` pixels at resolution level `level`.
fn level_size_of(size: u32, level: u32) -> (r: u32)
    ensures
        r == level_size(size as nat, level as nat),
{
    let mut cur: u32 = size;
    let mut k: u32 = level;
    while k > 0 && cur > 1
        invariant
            level_size(cur as nat, k as nat) == level_size(size as nat, level as nat),
        decreases k,
    {
        cur = if cur / 2 == 0 { 1 } else { cur / 2 };
        k = k - 1;
    }
    if k > 0 {
        proof {
            lemma_level_size_of_small(cur as nat, k as nat);
        }
        1
    } else {
        cur
    }
}

fn clip(origin: u32, nominal: u32, bound: u32) -> (r: u32)
    ensures
        r == clipped(origin as nat, nominal as nat, bound as nat),
{
    if origin >= bound {
        0
    } else if nominal <= bound - origin {
        nominal
    } else {
        bound - origin
    }
}

fn ceil_div_of(a: u32, b: u32) -> (r: u32)
    requires
        b >= 1,
    ensures
        r == ceil_div(a as nat, b as nat),
{
    if a % b == 0 {
        a / b
    } else {
        proof {
            assert(a / b < a) by (nonlinear_arith)
                requires
                    b >= 1,
                    a % b != 0,
            ;
        }
        a / b + 1
    }
}

} // verus!
