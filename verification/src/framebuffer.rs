//! The frame: a colour and a depth for every pixel, and the depth test
//! that decides which fragment a pixel shows.

use crate::color::Color;
use vstd::prelude::*;

verus! {

/// The depth of a pixel on which nothing has been drawn. No fragment is
/// as far away: a fragment at this depth is never shown.
pub const FAR: u32 = 0xffff_ffff;

/// The colour of a star, as `0xRRGGBB`.
pub const WHITE: u32 = 0xff_ffff;

/// What a frame holds, row by row from the top.
pub ghost struct FrameView {
    pub width: nat,
    pub height: nat,
    pub colors: Seq<u32>,
    pub depths: Seq<u32>,
    /// The colour that `clear` gives to every pixel.
    pub background: u32,
    /// The colour that `point` draws with.
    pub current: u32,
}

/// A shaded fragment on its way into the frame. Smaller depths are
/// nearer to the eye.
#[derive(Clone, Copy, Debug, PartialEq, Eq, Structural)]
pub struct Pixel {
    pub x: usize,
    pub y: usize,
    pub depth: u32,
    pub color: Color,
}

impl FrameView {
    /// Every pixel has one colour and one depth.
    pub open spec fn wf(self) -> bool {
        &&& self.colors.len() == self.width * self.height
        &&& self.depths.len() == self.width * self.height
    }

    /// Whether the frame has a pixel at column `x` of row `y`.
    pub open spec fn contains(self, x: int, y: int) -> bool {
        0 <= x < self.width && 0 <= y < self.height
    }

    /// The place of a pixel in the rows laid end to end.
    pub open spec fn offset(self, x: int, y: int) -> int {
        y * self.width + x
    }

    /// The colour of the pixel at column `x` of row `y`.
    pub open spec fn color_at(self, x: int, y: int) -> u32 {
        self.colors[self.offset(x, y)]
    }

    /// The depth of what the pixel at column `x` of row `y` shows.
    pub open spec fn depth_at(self, x: int, y: int) -> u32 {
        self.depths[self.offset(x, y)]
    }

    /// The frame after a point of the current colour has been drawn at the
    /// given depth: the pixel takes the colour and the depth if the frame
    /// has such a pixel and what it shows is farther away. Otherwise, and
    /// so when the depths are equal, nothing changes.
    pub open spec fn after_point(self, x: int, y: int, depth: u32) -> FrameView {
        if self.contains(x, y) && depth < self.depth_at(x, y) {
            FrameView {
                colors: self.colors.update(self.offset(x, y), self.current),
                depths: self.depths.update(self.offset(x, y), depth),
                ..self
            }
        } else {
            self
        }
    }

    /// The frame after a star has been painted: the pixel is white, at
    /// whatever depth it was. A star outside the frame changes nothing.
    pub open spec fn after_star(self, x: int, y: int) -> FrameView {
        if self.contains(x, y) {
            FrameView { colors: self.colors.update(self.offset(x, y), WHITE), ..self }
        } else {
            self
        }
    }

    /// The frame after the stars have been painted one after the other.
    pub open spec fn after_stars(self, stars: Seq<(usize, usize)>) -> FrameView
        decreases stars.len(),
    {
        if stars.len() == 0 {
            self
        } else {
            self.after_stars(stars.drop_last()).after_star(
                stars.last().0 as int,
                stars.last().1 as int,
            )
        }
    }

    /// The frame after it has been cleared: every pixel has the background
    /// colour and shows nothing.
    pub open spec fn after_clear(self) -> FrameView {
        FrameView {
            colors: Seq::new(self.width * self.height, |i: int| self.background),
            depths: Seq::new(self.width * self.height, |i: int| FAR),
            ..self
        }
    }

    /// The frame after a shaded fragment has been drawn: its colour
    /// becomes the current one and a point is drawn with it. A fragment
    /// outside the frame changes nothing.
    pub open spec fn after_pixel(self, p: Pixel) -> FrameView {
        if self.contains(p.x as int, p.y as int) {
            (FrameView { current: p.color.spec_hex() as u32, ..self }).after_point(
                p.x as int,
                p.y as int,
                p.depth,
            )
        } else {
            self
        }
    }

    /// The frame after the fragments have been drawn one after the other.
    pub open spec fn after_pixels(self, pixels: Seq<Pixel>) -> FrameView
        decreases pixels.len(),
    {
        if pixels.len() == 0 {
            self
        } else {
            self.after_pixels(pixels.drop_last()).after_pixel(pixels.last())
        }
    }
}

/// A pixel of a frame has its place within the rows laid end to end, and
/// no other pixel has the same.
pub proof fn lemma_offset(width: nat, height: nat, x: int, y: int)
    requires
        0 <= x < width,
        0 <= y < height,
    ensures
        0 <= y * width + x < width * height,
        forall|x2: int, y2: int|
            0 <= x2 < width && 0 <= y2 < height && #[trigger] (y2 * width + x2) == y * width + x
                ==> x2 == x && y2 == y,
{
    assert(y * width + x < width * height && y * width >= 0) by (nonlinear_arith)
        requires
            0 <= x < width,
            0 <= y < height,
    ;
    assert forall|x2: int, y2: int|
        0 <= x2 < width && 0 <= y2 < height && #[trigger] (y2 * width + x2) == y * width + x
            implies x2 == x && y2 == y by {
        assert(y2 == y) by (nonlinear_arith)
            requires
                0 <= x < width,
                0 <= x2 < width,
                y2 * width + x2 == y * width + x,
        ;
    }
}

fn offset_of(width: usize, height: usize, x: usize, y: usize) -> (offset: usize)
    requires
        x < width,
        y < height,
        width * height <= usize::MAX,
    ensures
        offset == y * width + x,
        offset < width * height,
{
    assert(0 <= y * width && y * width + x < width * height) by (nonlinear_arith)
        requires
            0 <= x < width,
            0 <= y < height,
    ;
    y * width + x
}

/// The frame of the renderer.
pub struct Framebuffer {
    width: usize,
    height: usize,
    buffer: Vec<u32>,
    zbuffer: Vec<u32>,
    background_color: u32,
    current_color: u32,
}

impl View for Framebuffer {
    type V = FrameView;

    closed spec fn view(&self) -> FrameView {
        FrameView {
            width: self.width as nat,
            height: self.height as nat,
            colors: self.buffer@,
            depths: self.zbuffer@,
            background: self.background_color,
            current: self.current_color,
        }
    }
}

impl Framebuffer {
    #[verifier::type_invariant]
    spec fn well_formed(&self) -> bool {
        &&& self.width * self.height <= usize::MAX
        &&& self.buffer@.len() == self.width * self.height
        &&& self.zbuffer@.len() == self.width * self.height
    }

    /// An empty frame of the given size: black all over, with a black
    /// background, and white to draw with. The number of pixels must be
    /// one that the machine can count.
    pub fn new(width: usize, height: usize) -> (frame: Framebuffer)
        requires
            width * height <= usize::MAX,
        ensures
            frame@.wf(),
            frame@.width == width,
            frame@.height == height,
            frame@.background == 0,
            frame@.current == WHITE,
            frame@ == frame@.after_clear(),
    {
        let size: usize = width * height;
        let frame = Framebuffer {
            width,
            height,
            buffer: vec![0u32; size],
            zbuffer: vec![FAR; size],
            background_color: 0,
            current_color: WHITE,
        };
        assert(frame@.colors =~= frame@.after_clear().colors);
        assert(frame@.depths =~= frame@.after_clear().depths);
        frame
    }

    /// The number of columns.
    pub fn width(&self) -> (width: usize)
        ensures
            width == self@.width,
    {
        self.width
    }

    /// The number of rows.
    pub fn height(&self) -> (height: usize)
        ensures
            height == self@.height,
    {
        self.height
    }

    /// The colours of all pixels as `0xRRGGBB`, row by row from the top:
    /// what a display takes.
    pub fn buffer(&self) -> (buffer: &Vec<u32>)
        ensures
            buffer@ == self@.colors,
            self@.wf(),
    {
        proof {
            use_type_invariant(self);
        }
        &self.buffer
    }

    /// The colour of a pixel, or nothing if the frame has no such pixel.
    pub fn color_at(&self, x: usize, y: usize) -> (color: Option<u32>)
        ensures
            self@.wf(),
            color == if self@.contains(x as int, y as int) {
                Some(self@.color_at(x as int, y as int))
            } else {
                None
            },
    {
        proof {
            use_type_invariant(self);
        }
        if x < self.width && y < self.height {
            proof {
                lemma_offset(self.width as nat, self.height as nat, x as int, y as int);
            }
            Some(self.buffer[offset_of(self.width, self.height, x, y)])
        } else {
            None
        }
    }

    /// The depth of what a pixel shows, or nothing if the frame has no
    /// such pixel.
    pub fn depth_at(&self, x: usize, y: usize) -> (depth: Option<u32>)
        ensures
            self@.wf(),
            depth == if self@.contains(x as int, y as int) {
                Some(self@.depth_at(x as int, y as int))
            } else {
                None
            },
    {
        proof {
            use_type_invariant(self);
        }
        if x < self.width && y < self.height {
            proof {
                lemma_offset(self.width as nat, self.height as nat, x as int, y as int);
            }
            Some(self.zbuffer[offset_of(self.width, self.height, x, y)])
        } else {
            None
        }
    }

    /// Sets the colour that `clear` fills the frame with.
    pub fn set_background_color(&mut self, color: u32)
        ensures
            final(self)@ == (FrameView { background: color, ..old(self)@ }),
    {
        proof {
            use_type_invariant(&*self);
        }
        self.background_color = color;
    }

    /// Sets the colour that `point` draws with.
    pub fn set_current_color(&mut self, color: u32)
        ensures
            final(self)@ == (FrameView { current: color, ..old(self)@ }),
    {
        proof {
            use_type_invariant(&*self);
        }
        self.current_color = color;
    }

    /// Gives every pixel the background colour and the depth `FAR`.
    pub fn clear(&mut self)
        ensures
            final(self)@ == old(self)@.after_clear(),
            final(self)@.wf(),
    {
        proof {
            use_type_invariant(&*self);
        }
        let size: usize = self.buffer.len();
        let mut i: usize = 0;
        while i < size
            invariant
                i <= size,
                size == self.width * self.height,
                self.buffer@.len() == size,
                self.zbuffer@.len() == size,
                self.width == old(self).width,
                self.height == old(self).height,
                self.background_color == old(self).background_color,
                self.current_color == old(self).current_color,
                forall|j: int| 0 <= j < i ==> self.buffer@[j] == self.background_color,
                forall|j: int| 0 <= j < i ==> self.zbuffer@[j] == FAR,
            decreases size - i,
        {
            self.buffer[i] = self.background_color;
            self.zbuffer[i] = FAR;
            i += 1;
        }
        assert(self@.colors =~= old(self)@.after_clear().colors);
        assert(self@.depths =~= old(self)@.after_clear().depths);
    }

    /// Draws a point of the current colour at the given depth. The pixel
    /// changes only if the frame has it and the point is nearer than what
    /// the pixel shows; a point at the same depth leaves it as it is.
    pub fn point(&mut self, x: usize, y: usize, depth: u32)
        ensures
            final(self)@ == old(self)@.after_point(x as int, y as int, depth),
            final(self)@.wf(),
    {
        proof {
            use_type_invariant(&*self);
        }
        if x < self.width && y < self.height {
            proof {
                lemma_offset(self.width as nat, self.height as nat, x as int, y as int);
            }
            let offset: usize = offset_of(self.width, self.height, x, y);
            if depth < self.zbuffer[offset] {
                self.buffer[offset] = self.current_color;
                self.zbuffer[offset] = depth;
            }
        }
    }

    /// Paints the stars white, whatever the pixels show and at whatever
    /// depth, and leaves the depths alone: the stars are behind everything
    /// that is drawn after them. Stars outside the frame are left out.
    pub fn draw_stars(&mut self, stars: &Vec<(usize, usize)>)
        ensures
            final(self)@ == old(self)@.after_stars(stars@),
            final(self)@.wf(),
    {
        proof {
            use_type_invariant(&*self);
        }
        let mut i: usize = 0;
        while i < stars.len()
            invariant
                i <= stars.len(),
                self.width * self.height <= usize::MAX,
                self.buffer@.len() == self.width * self.height,
                self.zbuffer@.len() == self.width * self.height,
                self@ == old(self)@.after_stars(stars@.take(i as int)),
            decreases stars.len() - i,
        {
            let (x, y) = stars[i];
            if x < self.width && y < self.height {
                proof {
                    lemma_offset(self.width as nat, self.height as nat, x as int, y as int);
                }
                let offset: usize = offset_of(self.width, self.height, x, y);
                self.buffer[offset] = WHITE;
            }
            proof {
                let done = stars@.take(i as int + 1);
                assert(done.drop_last() =~= stars@.take(i as int));
                assert(done.last() == stars@[i as int]);
            }
            i += 1;
        }
        assert(stars@.take(i as int) =~= stars@);
    }

    /// Draws shaded fragments in the order given: each one inside the
    /// frame sets the current colour and is drawn as a point at its depth.
    pub fn render(&mut self, pixels: &Vec<Pixel>)
        ensures
            final(self)@ == old(self)@.after_pixels(pixels@),
            final(self)@.wf(),
    {
        proof {
            use_type_invariant(&*self);
        }
        let mut i: usize = 0;
        while i < pixels.len()
            invariant
                i <= pixels.len(),
                self@.wf(),
                self@ == old(self)@.after_pixels(pixels@.take(i as int)),
            decreases pixels.len() - i,
        {
            let p = pixels[i];
            if p.x < self.width && p.y < self.height {
                self.set_current_color(p.color.to_hex());
                self.point(p.x, p.y, p.depth);
            }
            proof {
                let done = pixels@.take(i as int + 1);
                assert(done.drop_last() =~= pixels@.take(i as int));
                assert(done.last() == pixels@[i as int]);
            }
            i += 1;
        }
        assert(pixels@.take(i as int) =~= pixels@);
    }
}

/// Drawing changes neither the size of a frame nor its background.
pub proof fn lemma_after_pixels_keeps_shape(v: FrameView, pixels: Seq<Pixel>)
    requires
        v.wf(),
    ensures
        v.after_pixels(pixels).wf(),
        v.after_pixels(pixels).width == v.width,
        v.after_pixels(pixels).height == v.height,
        v.after_pixels(pixels).background == v.background,
    decreases pixels.len(),
{
    if pixels.len() > 0 {
        lemma_after_pixels_keeps_shape(v, pixels.drop_last());
        let last = pixels.last();
        if v.contains(last.x as int, last.y as int) {
            lemma_offset(v.width, v.height, last.x as int, last.y as int);
        }
    }
}

/// The depth test between two fragments on one pixel: the nearer one is
/// shown whichever is drawn first, and of two at the same depth the one
/// drawn first.
pub proof fn lemma_nearer_wins(v: FrameView, first: Pixel, second: Pixel)
    requires
        v.wf(),
        v.contains(first.x as int, first.y as int),
        second.x == first.x,
        second.y == first.y,
    ensures
        first.depth <= second.depth ==> v.after_pixel(first).after_pixel(second).colors
            == v.after_pixel(first).colors && v.after_pixel(first).after_pixel(second).depths
            == v.after_pixel(first).depths,
        second.depth < first.depth && second.depth < v.depth_at(first.x as int, first.y as int)
            ==> v.after_pixel(first).after_pixel(second).color_at(first.x as int, first.y as int)
            == second.color.spec_hex() && v.after_pixel(first).after_pixel(second).depth_at(
            first.x as int,
            first.y as int,
        ) == second.depth,
        first.depth < v.depth_at(first.x as int, first.y as int) ==> v.after_pixel(first).color_at(
            first.x as int,
            first.y as int,
        ) == first.color.spec_hex() && v.after_pixel(first).depth_at(
            first.x as int,
            first.y as int,
        ) == first.depth,
{
    lemma_offset(v.width, v.height, first.x as int, first.y as int);
    crate::color::lemma_hex_round_trip(first.color);
    crate::color::lemma_hex_round_trip(second.color);
}

/// The nearest fragment wins. After any number of fragments have been
/// drawn, a pixel is no farther than it was and no farther than any
/// fragment drawn on it; and it either shows what it showed before, or
/// shows one of those fragments with that fragment's colour and depth.
pub proof fn lemma_closest_wins(v: FrameView, pixels: Seq<Pixel>, x: int, y: int)
    requires
        v.wf(),
        v.contains(x, y),
    ensures
        v.after_pixels(pixels).depth_at(x, y) <= v.depth_at(x, y),
        forall|i: int|
            0 <= i < pixels.len() && (#[trigger] pixels[i]).x == x && pixels[i].y == y
                ==> v.after_pixels(pixels).depth_at(x, y) <= pixels[i].depth,
        (v.after_pixels(pixels).depth_at(x, y) == v.depth_at(x, y) && v.after_pixels(
            pixels,
        ).color_at(x, y) == v.color_at(x, y)) || (exists|i: int|
            0 <= i < pixels.len() && (#[trigger] pixels[i]).x == x && pixels[i].y == y
                && pixels[i].depth == v.after_pixels(pixels).depth_at(x, y)
                && pixels[i].color.spec_hex() == v.after_pixels(pixels).color_at(x, y)),
    decreases pixels.len(),
{
    if pixels.len() > 0 {
        let head = pixels.drop_last();
        let last = pixels.last();
        let before = v.after_pixels(head);
        let after = v.after_pixels(pixels);
        lemma_closest_wins(v, head, x, y);
        lemma_after_pixels_keeps_shape(v, head);
        lemma_offset(v.width, v.height, x, y);
        crate::color::lemma_hex_round_trip(last.color);
        assert(after == before.after_pixel(last));
        if before.contains(last.x as int, last.y as int) {
            lemma_offset(v.width, v.height, last.x as int, last.y as int);
        }
        if last.x == x && last.y == y && last.depth < before.depth_at(x, y) {
            assert(after.depth_at(x, y) == last.depth);
            assert(after.color_at(x, y) == last.color.spec_hex());
            assert(pixels[pixels.len() - 1] == last);
        } else {
            assert(after.depth_at(x, y) == before.depth_at(x, y));
            assert(after.color_at(x, y) == before.color_at(x, y));
            if !(before.depth_at(x, y) == v.depth_at(x, y) && before.color_at(x, y) == v.color_at(
                x,
                y,
            )) {
                let i = choose|i: int|
                    0 <= i < head.len() && (#[trigger] head[i]).x == x && head[i].y == y
                        && head[i].depth == before.depth_at(x, y) && head[i].color.spec_hex()
                        == before.color_at(x, y);
                assert(pixels[i] == head[i]);
            }
        }
        assert forall|i: int|
            0 <= i < pixels.len() && (#[trigger] pixels[i]).x == x && pixels[i].y == y implies after.depth_at(
            x,
            y,
        ) <= pixels[i].depth by {
            if i < head.len() {
                assert(pixels[i] == head[i]);
            }
        }
    }
}

/// The stars are a layer behind everything: painting them leaves every
/// depth as it was, makes white every pixel that has a star, and leaves
/// the colour of every other pixel.
pub proof fn lemma_stars(v: FrameView, stars: Seq<(usize, usize)>, x: int, y: int)
    requires
        v.wf(),
        v.contains(x, y),
    ensures
        v.after_stars(stars).wf(),
        v.after_stars(stars).width == v.width,
        v.after_stars(stars).height == v.height,
        v.after_stars(stars).depths == v.depths,
        v.after_stars(stars).color_at(x, y) == if exists|i: int|
            0 <= i < stars.len() && (#[trigger] stars[i]).0 == x && stars[i].1 == y {
            WHITE
        } else {
            v.color_at(x, y)
        },
    decreases stars.len(),
{
    if stars.len() > 0 {
        let head = stars.drop_last();
        let last = stars.last();
        lemma_stars(v, head, x, y);
        lemma_offset(v.width, v.height, x, y);
        let before = v.after_stars(head);
        if before.contains(last.0 as int, last.1 as int) {
            lemma_offset(v.width, v.height, last.0 as int, last.1 as int);
        }
        if last.0 == x && last.1 == y {
            assert(stars[stars.len() - 1] == last);
        } else if exists|i: int| 0 <= i < head.len() && (#[trigger] head[i]).0 == x && head[i].1 == y {
            let i = choose|i: int| 0 <= i < head.len() && (#[trigger] head[i]).0 == x && head[i].1 == y;
            assert(stars[i] == head[i]);
        } else {
            assert forall|i: int| 0 <= i < stars.len() implies !((#[trigger] stars[i]).0 == x
                && stars[i].1 == y) by {
                if i < head.len() {
                    assert(stars[i] == head[i]);
                }
            }
        }
    }
}

} // verus!
