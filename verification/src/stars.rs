//! The stars behind the scene.

use crate::random::random_in_range;
use vstd::prelude::*;

verus! {

/// Whether every star lies on a frame of the given size.
pub open spec fn stars_in_frame(stars: Seq<(usize, usize)>, width: int, height: int) -> bool {
    forall|i: int| 0 <= i < stars.len() ==> (#[trigger] stars[i]).0 < width && stars[i].1 < height
}

/// Scatters `num_stars` stars at random over a frame of the given size.
/// Stars may share a pixel. A frame without pixels gets no stars.
pub fn generate_stars(num_stars: usize, width: usize, height: usize) -> (stars: Vec<(usize, usize)>)
    ensures
        stars_in_frame(stars@, width as int, height as int),
        width > 0 && height > 0 ==> stars.len() == num_stars,
        width == 0 || height == 0 ==> stars.len() == 0,
{
    let mut stars: Vec<(usize, usize)> = Vec::new();
    if width == 0 || height == 0 {
        return stars;
    }
    let mut rng = rand::thread_rng();
    let mut i: usize = 0;
    while i < num_stars
        invariant
            i <= num_stars,
            width > 0,
            height > 0,
            stars.len() == i,
            stars_in_frame(stars@, width as int, height as int),
        decreases num_stars - i,
    {
        let x = random_in_range(&mut rng, 0, width);
        let y = random_in_range(&mut rng, 0, height);
        stars.push((x, y));
        i += 1;
    }
    stars
}

} // verus!
