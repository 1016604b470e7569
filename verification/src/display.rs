//! The picture the PPU draws: a frame being built pixel by pixel as colors,
//! and the last finished frame as 4 bytes per pixel for the user interface.

use vstd::prelude::*;

verus! {

pub const TV_WIDTH: usize = 256;

pub const TV_HEIGHT: usize = 240;

pub const COLOR_BYTES_LEN: usize = 4;

pub const TV_PIXELS: usize = 61440;

pub const TV_BUFFER_SIZE: usize = 245760;

/// A color as red, green and blue.
#[derive(Clone, Copy, PartialEq, Eq, Debug, Structural)]
pub struct Color {
    pub r: u8,
    pub g: u8,
    pub b: u8,
}

/// Black.
pub open spec fn black() -> Color {
    Color { r: 0, g: 0, b: 0 }
}

/// The 4 bytes `bytes` are what the handler `handler` may give for `color`.
pub open spec fn converted<F: Fn(&Color) -> [u8; 4]>(handler: F, color: Color, bytes: Seq<u8>) -> bool {
    exists|r: [u8; 4]| call_ensures(handler, (&color,), r) && r@ == bytes
}

/// Every pixel of the image holds the converted color of the frame's pixel.
pub open spec fn shows<F: Fn(&Color) -> [u8; 4]>(handler: F, frame: Seq<Color>, image: Seq<u8>) -> bool {
    forall|i: int|
        0 <= i < frame.len() ==> #[trigger] converted(
            handler,
            frame[i],
            image.subrange(COLOR_BYTES_LEN * i, COLOR_BYTES_LEN * i + COLOR_BYTES_LEN),
        )
}

pub struct TV<F: Fn(&Color) -> [u8; 4]> {
    /// this buffer is being read by the UI provider, and written to by the PPU,
    /// but we only update it once per frame, and the current
    /// being drawn is being updated in [`building_pixels`]
    pixels_to_display: Vec<u8>,
    /// A temporary buffer to holds the screen state while the PPU is drawing
    /// in the current frame
    building_pixels: Vec<Color>,
    /// A function to convert from [`Color`] to 4 byte value, which is used by
    /// the UI provider
    pixels_handler: F,
}

/// A screen as values: the finished image and the frame being drawn.
pub struct TvView {
    pub image: Seq<u8>,
    pub frame: Seq<Color>,
}

impl<F: Fn(&Color) -> [u8; 4]> View for TV<F> {
    type V = TvView;

    closed spec fn view(&self) -> TvView {
        TvView { image: self.pixels_to_display@, frame: self.building_pixels@ }
    }
}

impl<F: Fn(&Color) -> [u8; 4]> TV<F> {
    pub closed spec fn handler(&self) -> F {
        self.pixels_handler
    }

    /// The buffers have their sizes and the handler takes every color.
    pub closed spec fn wf(&self) -> bool {
        &&& self.pixels_to_display@.len() == TV_BUFFER_SIZE
        &&& self.building_pixels@.len() == TV_PIXELS
        &&& forall|c: Color| call_requires(self.pixels_handler, (&c,))
    }

    /// A well-formed screen holds a frame of `TV_PIXELS` colors, one per
    /// pixel row by row, and an image of `TV_BUFFER_SIZE` bytes.
    pub proof fn lemma_buffer_sizes(&self)
        requires
            self.wf(),
        ensures
            self@.frame.len() == TV_PIXELS,
            self@.image.len() == TV_BUFFER_SIZE,
    {
    }

    /// A black screen.
    pub fn new(pixels_handler: F) -> (tv: Self)
        requires
            forall|c: Color| call_requires(pixels_handler, (&c,)),
        ensures
            tv.wf(),
            tv.handler() == pixels_handler,
            tv@.image == Seq::new(TV_BUFFER_SIZE as nat, |i: int| 0u8),
            tv@.frame == Seq::new(TV_PIXELS as nat, |i: int| black()),
    {
        let mut pixels_to_display: Vec<u8> = Vec::new();
        let mut i: usize = 0;
        while i < TV_BUFFER_SIZE
            invariant
                i <= TV_BUFFER_SIZE,
                pixels_to_display@ == Seq::new(i as nat, |k: int| 0u8),
            decreases TV_BUFFER_SIZE - i,
        {
            pixels_to_display.push(0);
            i = i + 1;
            assert(pixels_to_display@ =~= Seq::new(i as nat, |k: int| 0u8));
        }
        let mut building_pixels: Vec<Color> = Vec::new();
        let mut j: usize = 0;
        while j < TV_PIXELS
            invariant
                j <= TV_PIXELS,
                building_pixels@ == Seq::new(j as nat, |k: int| black()),
            decreases TV_PIXELS - j,
        {
            building_pixels.push(Color { r: 0, g: 0, b: 0 });
            j = j + 1;
            assert(building_pixels@ =~= Seq::new(j as nat, |k: int| black()));
        }
        Self { pixels_to_display, building_pixels, pixels_handler }
    }

    /// A copy of the last finished image, 4 bytes per pixel, row by row.
    pub fn get_image_clone(&self) -> (image: Vec<u8>)
        ensures
            image@ == self@.image,
    {
        let mut image: Vec<u8> = Vec::new();
        let mut i: usize = 0;
        while i < self.pixels_to_display.len()
            invariant
                i <= self.pixels_to_display@.len(),
                image@ == self.pixels_to_display@.subrange(0, i as int),
            decreases self.pixels_to_display@.len() - i,
        {
            image.push(self.pixels_to_display[i]);
            i = i + 1;
            assert(image@ =~= self.pixels_to_display@.subrange(0, i as int));
        }
        assert(image@ =~= self.pixels_to_display@);
        image
    }

    /// update the pixel of the temporary buffer [`building_pixels`]
    pub fn set_pixel(&mut self, x: u32, y: u32, color: &Color)
        requires
            old(self).wf(),
            y * TV_WIDTH + x < TV_PIXELS,
        ensures
            final(self).wf(),
            final(self).handler() == old(self).handler(),
            final(self)@.image == old(self)@.image,
            final(self)@.frame == old(self)@.frame.update(y * TV_WIDTH + x, *color),
    {
        let index = y as usize * TV_WIDTH + x as usize;
        self.building_pixels.set(index, *color);
    }

    /// the PPU must call this at the end of the frame, maybe around `VBLANK`
    /// to tell the screen to copy and convert the [`Color`] data into the
    /// shared screen buffer
    pub fn signal_end_of_frame(&mut self)
        requires
            old(self).wf(),
        ensures
            final(self).wf(),
            final(self).handler() == old(self).handler(),
            final(self)@.frame == old(self)@.frame,
            final(self)@.image.len() == TV_BUFFER_SIZE,
            shows(old(self).handler(), old(self)@.frame, final(self)@.image),
    {
        let mut i: usize = 0;
        while i < TV_PIXELS
            invariant
                i <= TV_PIXELS,
                self.wf(),
                self.pixels_handler == old(self).pixels_handler,
                self.building_pixels@ == old(self).building_pixels@,
                forall|j: int|
                    0 <= j < i ==> #[trigger] converted(
                        self.pixels_handler,
                        self.building_pixels@[j],
                        self.pixels_to_display@.subrange(COLOR_BYTES_LEN * j, COLOR_BYTES_LEN * j + COLOR_BYTES_LEN),
                    ),
            decreases TV_PIXELS - i,
        {
            let bytes = (self.pixels_handler)(&self.building_pixels[i]);
            let ghost before = self.pixels_to_display@;
            let base = i * COLOR_BYTES_LEN;
            self.pixels_to_display.set(base, bytes[0]);
            self.pixels_to_display.set(base + 1, bytes[1]);
            self.pixels_to_display.set(base + 2, bytes[2]);
            self.pixels_to_display.set(base + 3, bytes[3]);
            proof {
                let after = self.pixels_to_display@;
                assert(after.subrange(COLOR_BYTES_LEN * i, COLOR_BYTES_LEN * i + COLOR_BYTES_LEN) =~= bytes@);
                assert(converted(self.pixels_handler, self.building_pixels@[i as int], bytes@));
                assert forall|j: int| 0 <= j < i implies #[trigger] converted(
                    self.pixels_handler,
                    self.building_pixels@[j],
                    after.subrange(COLOR_BYTES_LEN * j, COLOR_BYTES_LEN * j + COLOR_BYTES_LEN),
                ) by {
                    assert(after.subrange(COLOR_BYTES_LEN * j, COLOR_BYTES_LEN * j + COLOR_BYTES_LEN)
                        =~= before.subrange(COLOR_BYTES_LEN * j, COLOR_BYTES_LEN * j + COLOR_BYTES_LEN));
                }
            }
            i = i + 1;
        }
    }

    /// resets and zero all buffers
    pub fn reset(&mut self)
        requires
            old(self).wf(),
        ensures
            final(self).wf(),
            final(self).handler() == old(self).handler(),
            final(self)@.image == Seq::new(TV_BUFFER_SIZE as nat, |i: int| 0u8),
            final(self)@.frame == Seq::new(TV_PIXELS as nat, |i: int| black()),
    {
        let mut i: usize = 0;
        while i < TV_BUFFER_SIZE
            invariant
                i <= TV_BUFFER_SIZE,
                self.wf(),
                self.pixels_handler == old(self).pixels_handler,
                self.building_pixels@ == old(self).building_pixels@,
                forall|k: int| 0 <= k < i ==> self.pixels_to_display@[k] == 0u8,
            decreases TV_BUFFER_SIZE - i,
        {
            self.pixels_to_display.set(i, 0);
            i = i + 1;
        }
        let mut j: usize = 0;
        while j < TV_PIXELS
            invariant
                j <= TV_PIXELS,
                self.wf(),
                self.pixels_handler == old(self).pixels_handler,
                forall|k: int| 0 <= k < TV_BUFFER_SIZE ==> self.pixels_to_display@[k] == 0u8,
                forall|k: int| 0 <= k < j ==> self.building_pixels@[k] == black(),
            decreases TV_PIXELS - j,
        {
            self.building_pixels.set(j, Color { r: 0, g: 0, b: 0 });
            j = j + 1;
        }
        assert(self.pixels_to_display@ =~= Seq::new(TV_BUFFER_SIZE as nat, |i: int| 0u8));
        assert(self.building_pixels@ =~= Seq::new(TV_PIXELS as nat, |i: int| black()));
    }
}

/// A pixel set in a frame shows, once the frame ends, as its converted
/// color at its 4 bytes of the image.
pub proof fn lemma_set_pixel_shown<F: Fn(&Color) -> [u8; 4]>(
    handler: F,
    frame: Seq<Color>,
    x: u32,
    y: u32,
    color: Color,
    image: Seq<u8>,
)
    requires
        y * TV_WIDTH + x < frame.len(),
        shows(handler, frame.update(y * TV_WIDTH + x, color), image),
    ensures
        converted(
            handler,
            color,
            image.subrange(
                COLOR_BYTES_LEN * (y * TV_WIDTH + x),
                COLOR_BYTES_LEN * (y * TV_WIDTH + x) + COLOR_BYTES_LEN,
            ),
        ),
{
    let i = y * TV_WIDTH + x;
    assert(frame.update(i, color)[i] == color);
}

} // verus!
