use vstd::prelude::*;

verus! {

/// ASCII code of the digit `0`.
pub const DIGIT_ZERO: u8 = 48;

/// ASCII code of the space that separates numbers on a line.
pub const SPACE: u8 = 32;

/// ASCII code of the line feed that ends each line.
pub const NEWLINE: u8 = 10;

/// ASCII code of `P`, the first byte of the magic number `P3`.
pub const LETTER_P: u8 = 80;

/// The largest channel value, written in the header.
pub const MAX_CHANNEL: u8 = 255;

/// One pixel after tone mapping: three 8-bit channels.
#[derive(Clone, Copy, Debug, PartialEq, Eq, Structural)]
pub struct Rgb {
    pub r: u8,
    pub g: u8,
    pub b: u8,
}

impl Rgb {
    pub fn new(r: u8, g: u8, b: u8) -> (p: Rgb)
        ensures
            p == (Rgb { r, g, b }),
    {
        Rgb { r, g, b }
    }

    pub fn black() -> (p: Rgb)
        ensures
            p == Rgb::spec_black(),
    {
        Rgb { r: 0, g: 0, b: 0 }
    }

    /// The colour of a pixel nobody has written.
    pub open spec fn spec_black() -> Rgb {
        Rgb { r: 0, g: 0, b: 0 }
    }
}

/// `s` cut to `n` items, or grown to `n` items with copies of `fill`.
pub open spec fn resized<T>(s: Seq<T>, n: nat, fill: T) -> Seq<T> {
    Seq::new(n, |i: int| if i < s.len() { s[i] } else { fill })
}

/// A row of `width` black pixels.
pub open spec fn blank_row(width: nat) -> Seq<Rgb> {
    Seq::new(width, |_i: int| Rgb::spec_black())
}

/// The decimal digits of `n` in ASCII, most significant first, without leading zeros.
pub open spec fn decimal(n: nat) -> Seq<u8>
    decreases n,
{
    if n < 10 {
        seq![(DIGIT_ZERO + n) as u8]
    } else {
        decimal(n / 10).push((DIGIT_ZERO + n % 10) as u8)
    }
}

/// The line that encodes one pixel: `r g b` and a line feed.
pub open spec fn pixel_line(p: Rgb) -> Seq<u8> {
    decimal(p.r as nat) + seq![SPACE] + decimal(p.g as nat) + seq![SPACE] + decimal(p.b as nat)
        + seq![NEWLINE]
}

/// The lines of a row of pixels, left to right.
pub open spec fn row_text(row: Seq<Rgb>) -> Seq<u8>
    decreases row.len(),
{
    if row.len() == 0 {
        Seq::empty()
    } else {
        row_text(row.drop_last()) + pixel_line(row.last())
    }
}

/// The lines of all rows, the first row first.
pub open spec fn rows_text(rows: Seq<Seq<Rgb>>) -> Seq<u8>
    decreases rows.len(),
{
    if rows.len() == 0 {
        Seq::empty()
    } else {
        rows_text(rows.drop_last()) + row_text(rows.last())
    }
}

/// The header of a plain-text PPM file: `P3`, then `width height`, then `255`.
pub open spec fn header_text(width: nat, height: nat) -> Seq<u8> {
    seq![LETTER_P, (DIGIT_ZERO + 3) as u8, NEWLINE] + decimal(width) + seq![SPACE] + decimal(height)
        + seq![NEWLINE] + decimal(MAX_CHANNEL as nat) + seq![NEWLINE]
}

/// A whole plain-text PPM file.
pub open spec fn ppm_text(width: nat, height: nat, rows: Seq<Seq<Rgb>>) -> Seq<u8> {
    header_text(width, height) + rows_text(rows)
}

/// Appends the decimal digits of `n`.
fn push_decimal(out: &mut Vec<u8>, n: usize)
    ensures
        final(out)@ == old(out)@ + decimal(n as nat),
    decreases n,
{
    if n >= 10 {
        push_decimal(out, n / 10);
    }
    out.push(DIGIT_ZERO + (n % 10) as u8);
    assert(out@ =~= old(out)@ + decimal(n as nat));
}

/// Appends one pixel's line.
fn push_pixel_line(out: &mut Vec<u8>, p: Rgb)
    ensures
        final(out)@ == old(out)@ + pixel_line(p),
{
    push_decimal(out, p.r as usize);
    out.push(SPACE);
    push_decimal(out, p.g as usize);
    out.push(SPACE);
    push_decimal(out, p.b as usize);
    out.push(NEWLINE);
    assert(out@ =~= old(out)@ + pixel_line(p));
}

/// A row of `width` black pixels.
fn new_blank_row(width: usize) -> (row: Vec<Rgb>)
    ensures
        row@ == blank_row(width as nat),
{
    let mut row: Vec<Rgb> = Vec::new();
    let mut i: usize = 0;
    while i < width
        invariant
            i <= width,
            row@ == blank_row(i as nat),
        decreases width - i,
    {
        row.push(Rgb::black());
        i = i + 1;
        assert(row@ =~= blank_row(i as nat));
    }
    row
}

/// Cuts `row` to `width` pixels, or pads it with black pixels to that width.
fn resize_row(row: &mut Vec<Rgb>, width: usize)
    ensures
        final(row)@ == resized(old(row)@, width as nat, Rgb::spec_black()),
{
    if row.len() > width {
        row.truncate(width);
    } else {
        while row.len() < width
            invariant
                old(row)@.len() <= row@.len() <= width,
                forall|i: int|
                    0 <= i < row@.len() ==> #[trigger] row@[i] == (if i < old(row)@.len() {
                        old(row)@[i]
                    } else {
                        Rgb::spec_black()
                    }),
            decreases width - row@.len(),
        {
            row.push(Rgb::black());
        }
    }
    assert(row@ =~= resized(old(row)@, width as nat, Rgb::spec_black()));
}

/// A raster of 8-bit RGB pixels, stored top row first.
///
/// Coordinates given to its methods count `y` from the bottom: `(x, 0)` lies
/// on the last stored row, which is the bottom of the image.
pub struct Ppm {
    height: usize,
    width: usize,
    pixels: Vec<Vec<Rgb>>,
}

impl Ppm {
    pub closed spec fn spec_width(&self) -> nat {
        self.width as nat
    }

    pub closed spec fn spec_height(&self) -> nat {
        self.height as nat
    }

    /// The stored rows, top of the image first.
    pub closed spec fn rows(&self) -> Seq<Seq<Rgb>> {
        self.pixels@.map_values(|row: Vec<Rgb>| row@)
    }

    /// There are `height` rows, each of `width` pixels.
    pub open spec fn wf(&self) -> bool {
        &&& self.rows().len() == self.spec_height()
        &&& forall|i: int| 0 <= i < self.rows().len() ==> (#[trigger] self.rows()[i]).len() == self.spec_width()
    }

    /// The pixel at `x` from the left and `y` from the bottom.
    pub open spec fn pixel(&self, x: int, y: int) -> Rgb {
        self.rows()[self.spec_height() - 1 - y][x]
    }

    /// An empty image, zero pixels wide and high.
    pub fn new() -> (img: Ppm)
        ensures
            img.wf(),
            img.spec_width() == 0,
            img.spec_height() == 0,
            img.rows() == Seq::<Seq<Rgb>>::empty(),
    {
        let img = Ppm { height: 0, width: 0, pixels: Vec::new() };
        assert(img.rows() =~= Seq::<Seq<Rgb>>::empty());
        img
    }

    /// A black image of `width` by `height` pixels.
    pub fn from(width: usize, height: usize) -> (img: Ppm)
        ensures
            img.wf(),
            img.spec_width() == width,
            img.spec_height() == height,
            img.rows() == Seq::new(height as nat, |_i: int| blank_row(width as nat)),
    {
        let mut pixels: Vec<Vec<Rgb>> = Vec::new();
        let mut y: usize = 0;
        while y < height
            invariant
                y <= height,
                pixels@.len() == y,
                forall|i: int| 0 <= i < y ==> (#[trigger] pixels@[i])@ == blank_row(width as nat),
            decreases height - y,
        {
            let row = new_blank_row(width);
            pixels.push(row);
            y = y + 1;
        }
        let img = Ppm { height, width, pixels };
        assert(img.rows() =~= Seq::new(height as nat, |_i: int| blank_row(width as nat)));
        img
    }

    /// Sets the number of rows: rows past `height` are dropped from the bottom
    /// of the stored order, and missing ones are added there as black rows.
    pub fn set_height(&mut self, height: usize)
        requires
            old(self).wf(),
        ensures
            final(self).wf(),
            final(self).spec_width() == old(self).spec_width(),
            final(self).spec_height() == height,
            final(self).rows() == resized(old(self).rows(), height as nat, blank_row(old(self).spec_width())),
    {
        let ghost old_rows = self.rows();
        let ghost blank = blank_row(self.width as nat);
        self.height = height;
        while self.pixels.len() < self.height
            invariant
                self.height == height,
                self.width == old(self).width,
                blank == blank_row(self.width as nat),
                self.pixels@.len() >= old_rows.len(),
                old_rows == old(self).rows(),
                forall|i: int|
                    0 <= i < self.pixels@.len() ==> (#[trigger] self.pixels@[i])@ == (if i < old_rows.len() {
                        old_rows[i]
                    } else {
                        blank
                    }),
            decreases self.height - self.pixels@.len(),
        {
            let new_row = new_blank_row(self.width);
            self.pixels.push(new_row);
        }
        self.pixels.truncate(self.height);
        assert(self.rows() =~= resized(old_rows, height as nat, blank));
    }

    /// Sets the number of pixels in each row: pixels past `width` are dropped
    /// from the right, and missing ones are added there in black.
    pub fn set_width(&mut self, width: usize)
        requires
            old(self).wf(),
        ensures
            final(self).wf(),
            final(self).spec_width() == width,
            final(self).spec_height() == old(self).spec_height(),
            final(self).rows() == old(self).rows().map_values(
                |row: Seq<Rgb>| resized(row, width as nat, Rgb::spec_black()),
            ),
    {
        let ghost old_rows = self.rows();
        self.width = width;
        let mut i: usize = 0;
        while i < self.pixels.len()
            invariant
                self.width == width,
                self.height == old(self).height,
                old_rows == old(self).rows(),
                self.pixels@.len() == old_rows.len(),
                i <= self.pixels@.len(),
                forall|j: int|
                    0 <= j < self.pixels@.len() ==> (#[trigger] self.pixels@[j])@ == (if j < i {
                        resized(old_rows[j], width as nat, Rgb::spec_black())
                    } else {
                        old_rows[j]
                    }),
            decreases self.pixels@.len() - i,
        {
            resize_row(&mut self.pixels[i], width);
            i = i + 1;
        }
        assert(self.rows() =~= old_rows.map_values(
            |row: Seq<Rgb>| resized(row, width as nat, Rgb::spec_black()),
        ));
    }

    /// Writes `pixel` at `x` from the left and `y` from the bottom.
    pub fn set_pixel(&mut self, x: usize, y: usize, pixel: Rgb)
        requires
            old(self).wf(),
            x < old(self).spec_width(),
            y < old(self).spec_height(),
        ensures
            final(self).wf(),
            final(self).spec_width() == old(self).spec_width(),
            final(self).spec_height() == old(self).spec_height(),
            final(self).rows() == old(self).rows().update(
                old(self).spec_height() - 1 - y,
                old(self).rows()[old(self).spec_height() - 1 - y].update(x as int, pixel),
            ),
    {
        let ghost old_rows = self.rows();
        let row = self.height - 1 - y;
        assert(old_rows[row as int].len() == self.width);
        self.pixels[row][x] = pixel;
        assert(self.rows() =~= old_rows.update(row as int, old_rows[row as int].update(x as int, pixel)));
    }

    /// The pixel at `x` from the left and `y` from the bottom.
    pub fn get_pixel(&self, x: usize, y: usize) -> (p: Rgb)
        requires
            self.wf(),
            x < self.spec_width(),
            y < self.spec_height(),
        ensures
            p == self.pixel(x as int, y as int),
    {
        let row = self.height - 1 - y;
        assert(self.rows()[row as int].len() == self.width);
        self.pixels[row][x]
    }

    pub fn get_height(&self) -> (h: usize)
        ensures
            h == self.spec_height(),
    {
        self.height
    }

    pub fn get_width(&self) -> (w: usize)
        ensures
            w == self.spec_width(),
    {
        self.width
    }

    /// The image as a plain-text PPM file: the header, then one line per
    /// pixel, row by row from the top of the image.
    pub fn encode(&self) -> (out: Vec<u8>)
        requires
            self.wf(),
        ensures
            out@ == ppm_text(self.spec_width(), self.spec_height(), self.rows()),
    {
        let mut out: Vec<u8> = Vec::new();
        out.push(LETTER_P);
        out.push(DIGIT_ZERO + 3);
        out.push(NEWLINE);
        push_decimal(&mut out, self.width);
        out.push(SPACE);
        push_decimal(&mut out, self.height);
        out.push(NEWLINE);
        push_decimal(&mut out, MAX_CHANNEL as usize);
        out.push(NEWLINE);
        let ghost header = header_text(self.width as nat, self.height as nat);
        assert(out@ =~= header);
        let ghost rows = self.rows();
        let mut y: usize = 0;
        while y < self.pixels.len()
            invariant
                self.wf(),
                rows == self.rows(),
                y <= rows.len(),
                out@ == header + rows_text(rows.take(y as int)),
            decreases rows.len() - y,
        {
            let row = &self.pixels[y];
            let ghost before = out@;
            let mut x: usize = 0;
            while x < row.len()
                invariant
                    row@ == rows[y as int],
                    x <= row@.len(),
                    out@ == before + row_text(row@.take(x as int)),
                decreases row@.len() - x,
            {
                push_pixel_line(&mut out, row[x]);
                assert(row@.take(x + 1).drop_last() =~= row@.take(x as int));
                x = x + 1;
                assert(out@ =~= before + row_text(row@.take(x as int)));
            }
            assert(row@.take(x as int) =~= row@);
            assert(rows.take(y + 1).drop_last() =~= rows.take(y as int));
            y = y + 1;
            assert(out@ =~= header + rows_text(rows.take(y as int)));
        }
        assert(rows.take(y as int) =~= rows);
        out
    }
}

} // verus!
