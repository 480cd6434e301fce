//! Colours of the materials that model entries are drawn with.
use rand::Rng;
use vstd::prelude::*;

verus! {

/// A colour in sRGB with 8 bits per channel and an alpha channel.
#[derive(Clone, Copy, Debug, PartialEq, Eq, Structural)]
pub struct Srgba {
    pub r: u8,
    pub g: u8,
    pub b: u8,
    pub a: u8,
}

/// The lowest channel value that counts as bright.
pub const BRIGHT_MIN: u8 = 126;

/// The highest channel value.
pub const BRIGHT_MAX: u8 = 255;

/// A channel value in the upper half of the channel's range.
pub open spec fn is_bright(channel: u8) -> bool {
    BRIGHT_MIN <= channel <= BRIGHT_MAX
}

impl Srgba {
    /// The colour with the given channels and full alpha.
    pub open spec fn opaque(r: u8, g: u8, b: u8) -> Srgba {
        Srgba { r, g, b, a: 255 }
    }

    /// An opaque colour whose three colour channels are bright.
    pub open spec fn is_bright_opaque(self) -> bool {
        &&& is_bright(self.r)
        &&& is_bright(self.g)
        &&& is_bright(self.b)
        &&& self.a == 255
    }

    /// Makes the colour with the given channels and full alpha.
    pub fn new_opaque(r: u8, g: u8, b: u8) -> (colour: Srgba)
        ensures
            colour == Srgba::opaque(r, g, b),
    {
        Srgba { r, g, b, a: 255 }
    }
}

/// `rand::rngs::ThreadRng`, the handle to a thread's random number generator.
/// Nothing inside it is visible here.
#[verifier::external_type_specification]
#[verifier::external_body]
pub struct ExThreadRng(rand::rngs::ThreadRng);

/// `rand::thread_rng` hands out the calling thread's generator, which the
/// operating system seeds on first use. Nothing is claimed of the handle.
pub assume_specification[ rand::thread_rng ]() -> (rng: rand::rngs::ThreadRng)
;

/// `rand::Rng::gen_range` on the inclusive range from `low` to `high`. It
/// panics on an empty range, which `requires` leaves out. Every value it
/// returns lies in the range; which one is up to the generator, so two calls
/// with the same bounds may differ.
#[verifier::external_body]
fn gen_range_inclusive(rng: &mut rand::rngs::ThreadRng, low: u8, high: u8) -> (value: u8)
    requires
        low <= high,
    ensures
        low <= value <= high,
{
    rng.gen_range(low..=high)
}

/// Draws four channel values, each from the bright range, each independently
/// of the others.
pub fn get_rand_rgba() -> (rgba: [u8; 4])
    ensures
        forall|k: int| 0 <= k < 4 ==> is_bright(#[trigger] rgba[k]),
{
    let mut rng = rand::thread_rng();
    let r: u8 = gen_range_inclusive(&mut rng, BRIGHT_MIN, BRIGHT_MAX);
    let g: u8 = gen_range_inclusive(&mut rng, BRIGHT_MIN, BRIGHT_MAX);
    let b: u8 = gen_range_inclusive(&mut rng, BRIGHT_MIN, BRIGHT_MAX);
    let a: u8 = gen_range_inclusive(&mut rng, BRIGHT_MIN, BRIGHT_MAX);
    [r, g, b, a]
}

/// The base colour of a fresh solid material: opaque, with each colour channel
/// drawn from the bright range.
pub fn new_phys_mat() -> (albedo: Srgba)
    ensures
        albedo.is_bright_opaque(),
{
    let rgba: [u8; 4] = get_rand_rgba();
    Srgba::new_opaque(rgba[0], rgba[1], rgba[2])
}

/// The base colour of the material that both wireframe forms share.
pub fn wireframe_albedo() -> (albedo: Srgba)
    ensures
        albedo == Srgba::opaque(220, 50, 50),
{
    Srgba::new_opaque(220, 50, 50)
}

} // verus!
