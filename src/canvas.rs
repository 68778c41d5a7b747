use vstd::prelude::*;

verus! {

/// A colour with alpha.
#[derive(Clone, Copy, Debug, PartialEq, Eq, Structural)]
pub struct Color {
    pub r: u8,
    pub g: u8,
    pub b: u8,
    pub a: u8,
}

impl Color {
    /// Opaque black.
    pub fn black() -> (c: Color)
        ensures
            c == (Color { r: 0, g: 0, b: 0, a: 255 }),
    {
        Color { r: 0, g: 0, b: 0, a: 255 }
    }

    /// An opaque colour.
    pub fn new(r: u8, g: u8, b: u8) -> (c: Color)
        ensures
            c == (Color { r, g, b, a: 255 }),
    {
        Color { r, g, b, a: 255 }
    }

    /// A colour with the given alpha.
    pub fn new_rgba(r: u8, g: u8, b: u8, a: u8) -> (c: Color)
        ensures
            c == (Color { r, g, b, a }),
    {
        Color { r, g, b, a }
    }

    /// Channel `k` of the colour in buffer order: red, green, blue, alpha.
    pub open spec fn channel(self, k: int) -> u8 {
        if k == 0 {
            self.r
        } else if k == 1 {
            self.g
        } else if k == 2 {
            self.b
        } else {
            self.a
        }
    }
}

/// A named pixel buffer of `width` by `height` pixels, four bytes each
/// (red, green, blue, alpha), row after row.
pub struct Canvas {
    name: String,
    width: u32,
    height: u32,
    data: Vec<u8>,
}

/// The pixel number of `(x, y)` on a canvas `width` pixels wide.
pub open spec fn pixel_number(x: int, y: int, width: int) -> int {
    x + y * width
}

impl Canvas {
    pub closed spec fn spec_width(&self) -> nat {
        self.width as nat
    }

    pub closed spec fn spec_height(&self) -> nat {
        self.height as nat
    }

    pub closed spec fn spec_name(&self) -> Seq<char> {
        self.name@
    }

    /// The bytes of the buffer.
    pub closed spec fn spec_data(&self) -> Seq<u8> {
        self.data@
    }

    /// The buffer holds four bytes for each pixel.
    pub open spec fn wf(&self) -> bool {
        self.spec_data().len() == self.spec_width() * self.spec_height() * 4
    }

    /// A buffer of `width` by `height` pixels, every byte zero.
    pub fn new(width: u32, height: u32, name: &str) -> (c: Canvas)
        requires
            width * height * 4 <= u32::MAX,
        ensures
            c.wf(),
            c.spec_width() == width,
            c.spec_height() == height,
            c.spec_name() == name@,
            forall|k: int| 0 <= k < c.spec_data().len() ==> #[trigger] c.spec_data()[k] == 0,
    {
        let total: u32 = width * height * 4;
        let mut data: Vec<u8> = Vec::new();
        let mut i: u32 = 0;
        while i < total
            invariant
                i <= total,
                data@.len() == i,
                forall|k: int| 0 <= k < i ==> #[trigger] data@[k] == 0,
            decreases total - i,
        {
            data.push(0);
            i = i + 1;
        }
        Canvas { name: name.to_owned(), width, height, data }
    }

    pub fn name(&self) -> (r: &str)
        ensures
            r@ == self.spec_name(),
    {
        self.name.as_str()
    }

    pub fn width(&self) -> (r: u32)
        ensures
            r == self.spec_width(),
    {
        self.width
    }

    pub fn height(&self) -> (r: u32)
        ensures
            r == self.spec_height(),
    {
        self.height
    }

    /// The bytes of the buffer, row after row.
    pub fn data(&self) -> (r: &[u8])
        ensures
            r@ == self.spec_data(),
    {
        self.data.as_slice()
    }

    /// Paints pixel `(x, y)` with `c`. A point whose pixel number falls
    /// outside the buffer leaves it unchanged.
    pub fn pixel(&mut self, x: i32, y: i32, c: Color)
        requires
            old(self).wf(),
        ensures
            final(self).wf(),
            final(self).spec_width() == old(self).spec_width(),
            final(self).spec_height() == old(self).spec_height(),
            final(self).spec_name() == old(self).spec_name(),
            ({
                let n = pixel_number(x as int, y as int, old(self).spec_width() as int);
                if 0 <= n && 4 * n + 2 < old(self).spec_data().len() {
                    final(self).spec_data() == old(self).spec_data().update(4 * n, c.r).update(
                        4 * n + 1,
                        c.g,
                    ).update(4 * n + 2, c.b).update(4 * n + 3, c.a)
                } else {
                    final(self).spec_data() == old(self).spec_data()
                }
            }),
    {
        let len = self.data.len();
        proof {
            let yy = y as int;
            let ww = self.width as int;
            assert(-0x8000_0000 * 0xffff_ffff <= yy * ww <= 0x7fff_ffff * 0xffff_ffff)
                by (nonlinear_arith)
                requires
                    -0x8000_0000 <= yy <= 0x7fff_ffff,
                    0 <= ww <= 0xffff_ffff,
            ;
        }
        let n: i64 = (x as i64) + (y as i64) * (self.width as i64);
        if n < 0 || n >= (len / 4) as i64 {
            return;
        }
        let index: usize = (n as usize) * 4;
        assert(4 * n + 2 < len <==> 4 * n + 4 <= len);
        self.data.set(index, c.r);
        self.data.set(index + 1, c.g);
        self.data.set(index + 2, c.b);
        self.data.set(index + 3, c.a);
    }

    /// Paints every pixel with `c`.
    pub fn background(&mut self, c: Color)
        requires
            old(self).wf(),
        ensures
            final(self).wf(),
            final(self).spec_width() == old(self).spec_width(),
            final(self).spec_height() == old(self).spec_height(),
            final(self).spec_name() == old(self).spec_name(),
            final(self).spec_data().len() == old(self).spec_data().len(),
            forall|k: int|
                0 <= k < final(self).spec_data().len() ==> #[trigger] final(self).spec_data()[k]
                    == c.channel(k % 4),
    {
        let pixels: usize = self.data.len() / 4;
        let mut i: usize = 0;
        while i < pixels
            invariant
                self.wf(),
                pixels == self.data@.len() / 4,
                self.data@.len() % 4 == 0,
                i <= pixels,
                pixels * 4 <= usize::MAX,
                self.width == old(self).width,
                self.height == old(self).height,
                self.name == old(self).name,
                self.data@.len() == old(self).data@.len(),
                forall|k: int| 0 <= k < 4 * i ==> #[trigger] self.data@[k] == c.channel(k % 4),
            decreases pixels - i,
        {
            let base: usize = i * 4;
            self.data.set(base, c.r);
            self.data.set(base + 1, c.g);
            self.data.set(base + 2, c.b);
            self.data.set(base + 3, c.a);
            proof {
                assert forall|k: int| 0 <= k < 4 * (i + 1) implies #[trigger] self.data@[k] == c.channel(k % 4) by {
                    if k >= 4 * i {
                        assert(k % 4 == k - 4 * i);
                    }
                }
            }
            i = i + 1;
        }
    }
}

} // verus!
