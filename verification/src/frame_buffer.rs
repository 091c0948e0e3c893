use crate::color::Color;
use vstd::prelude::*;

verus! {

/// A picture: rows of pixels, one row after the other.
#[derive(Default)]
pub struct FrameBuffer {
    pub width: usize,
    pub height: usize,
    pub buffer: Vec<Color>,
}

/// The picture after it was given a size: a picture of that size keeps
/// its pixels; otherwise the run of pixels is cut or filled up with black
/// to the new number of pixels.
pub open spec fn resized(pixels: Seq<Color>, old_size: (int, int), size: (int, int)) -> Seq<Color> {
    if size == old_size {
        pixels
    } else {
        Seq::new(
            (size.0 * size.1) as nat,
            |i: int|
                if i < pixels.len() {
                    pixels[i]
                } else {
                    Color { r: 0, g: 0, b: 0 }
                },
        )
    }
}

/// A picture as bytes, four for each pixel: red, green, blue, and a
/// fourth that is always full.
pub open spec fn rgba(pixels: Seq<Color>) -> Seq<u8> {
    Seq::new(
        pixels.len() * 4,
        |i: int|
            if i % 4 == 0 {
                pixels[i / 4].r
            } else if i % 4 == 1 {
                pixels[i / 4].g
            } else if i % 4 == 2 {
                pixels[i / 4].b
            } else {
                0xffu8
            },
    )
}

impl FrameBuffer {
    /// The picture holds as many pixels as its size says.
    pub open spec fn wf(&self) -> bool {
        self.buffer@.len() == self.width * self.height
    }

    /// A black picture of a size whose number of pixels fits the address
    /// space.
    pub fn new(width: usize, height: usize) -> (r: Self)
        requires
            width * height <= usize::MAX,
        ensures
            r.wf(),
            r.width == width,
            r.height == height,
            r.buffer@ == resized(Seq::empty(), (0, 0), (width as int, height as int)),
    {
        let mut ret = FrameBuffer { width: 0, height: 0, buffer: Vec::new() };
        assert(0 * 0 == 0) by (nonlinear_arith);
        ret.resize(width, height);
        ret
    }

    /// Gives the picture a size whose number of pixels fits the address
    /// space.
    pub fn resize(&mut self, width: usize, height: usize)
        requires
            width * height <= usize::MAX,
            old(self).wf(),
        ensures
            final(self).wf(),
            final(self).width == width,
            final(self).height == height,
            final(self).buffer@ == resized(
                old(self).buffer@,
                (old(self).width as int, old(self).height as int),
                (width as int, height as int),
            ),
    {
        if width == self.width && height == self.height {
            return ;
        }
        self.width = width;
        self.height = height;
        let n = width * height;
        self.buffer.truncate(n);
        while self.buffer.len() < n
            invariant
                self.width == width,
                self.height == height,
                n == width * height,
                old(self).buffer@.len() <= self.buffer@.len() || self.buffer@.len() == n,
                self.buffer@.len() <= n,
                forall|i: int|
                    0 <= i < self.buffer@.len() ==> #[trigger] self.buffer@[i] == if i < old(
                        self,
                    ).buffer@.len() {
                        old(self).buffer@[i]
                    } else {
                        Color { r: 0, g: 0, b: 0 }
                    },
            decreases n - self.buffer.len(),
        {
            self.buffer.push(Color { r: 0, g: 0, b: 0 });
        }
        assert(self.buffer@ =~= resized(
            old(self).buffer@,
            (old(self).width as int, old(self).height as int),
            (width as int, height as int),
        ));
    }

    /// The pixel in column `x` of row `y`.
    pub fn pixel(&self, x: usize, y: usize) -> (r: &Color)
        requires
            y * self.width + x < self.buffer@.len(),
        ensures
            *r == self.buffer@[y * self.width + x],
    {
        let len = self.buffer.len();
        assert(0 <= y * self.width <= len) by (nonlinear_arith)
            requires
                y * self.width + x < len,
                0 <= x,
                0 <= y,
                0 <= self.width,
        ;
        &self.buffer[y * self.width + x]
    }

    /// The pixel in column `x` of row `y`, to be changed in place.
    pub fn pixel_mut(&mut self, x: usize, y: usize) -> (r: &mut Color)
        requires
            y * old(self).width + x < old(self).buffer@.len(),
        ensures
            *r == old(self).buffer@[y * old(self).width + x],
            final(self).width == old(self).width,
            final(self).height == old(self).height,
            final(self).buffer@ == old(self).buffer@.update(
                y * old(self).width + x,
                *final(r),
            ),
    {
        let len = self.buffer.len();
        assert(0 <= y * self.width <= len) by (nonlinear_arith)
            requires
                y * self.width + x < len,
                0 <= x,
                0 <= y,
                0 <= self.width,
        ;
        &mut self.buffer[y * self.width + x]
    }

    /// The picture as bytes, four for each pixel.
    pub fn to_rgba(&self) -> (r: Vec<u8>)
        ensures
            r@ == rgba(self.buffer@),
    {
        let mut data: Vec<u8> = Vec::new();
        let mut i: usize = 0;
        while i < self.buffer.len()
            invariant
                i <= self.buffer.len(),
                data@.len() == i * 4,
                forall|k: int|
                    0 <= k < data@.len() ==> #[trigger] data@[k] == rgba(self.buffer@)[k],
            decreases self.buffer.len() - i,
        {
            let c = self.buffer[i];
            data.push(c.r);
            data.push(c.g);
            data.push(c.b);
            data.push(0xff);
            i += 1;
        }
        assert(data@ =~= rgba(self.buffer@));
        data
    }
}

} // verus!
