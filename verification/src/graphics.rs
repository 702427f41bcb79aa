//! Two-plane framebuffer for the panel: rotation-aware pixel packing,
//! gray-level encoding, clearing and inversion.
use vstd::prelude::*;
use vstd::pervasive::VecAdditionalExecFns;

use crate::color::Color;
use crate::{HEIGHT, PLANE_BYTES, WIDTH};

verus! {

/// Rotation applied to coordinates of subsequently drawn pixels.
/// It never alters bits already stored in the planes.
#[derive(Clone, Copy, Debug, PartialEq, Eq, Structural)]
pub enum DisplayRotation {
    /// No rotation.
    Rotate0,
    /// Rotate by 90 degrees clockwise.
    Rotate90,
    /// Rotate by 180 degrees clockwise.
    Rotate180,
    /// Rotate by 270 degrees clockwise.
    Rotate270,
}

impl Default for DisplayRotation {
    fn default() -> (r: Self)
        ensures
            r == DisplayRotation::Rotate0,
    {
        DisplayRotation::Rotate0
    }
}

/// One drawing request: a coordinate pair and the gray level to put there.
#[derive(Clone, Copy, Debug, PartialEq, Eq, Structural)]
pub struct Pixel {
    /// Horizontal coordinate before rotation.
    pub x: i32,
    /// Vertical coordinate before rotation.
    pub y: i32,
    /// Gray level to draw.
    pub color: Color,
}

/// A rectangle of panel RAM: origin and size in pixels.
#[derive(Clone, Copy, Debug, PartialEq, Eq, Structural)]
pub struct Rect {
    /// Leftmost column.
    pub x: u32,
    /// Topmost row.
    pub y: u32,
    /// Number of columns.
    pub width: u32,
    /// Number of rows.
    pub height: u32,
}

/// Coordinates the framebuffer accepts: the first row and column are
/// reserved by the controller, so drawable pixels live in
/// `[1, WIDTH) x [1, HEIGHT)`.
pub open spec fn in_bounds(x: int, y: int) -> bool {
    1 <= x < WIDTH as int && 1 <= y < HEIGHT as int
}

/// Bit offset a coordinate pair maps to under a rotation.
pub open spec fn pixel_offset(rot: DisplayRotation, x: int, y: int) -> int {
    match rot {
        DisplayRotation::Rotate0 => x + y * (WIDTH as int),
        DisplayRotation::Rotate90 => y + x * (HEIGHT as int),
        DisplayRotation::Rotate180 => ((WIDTH as int) - 1 - x) + ((HEIGHT as int) - 1 - y) * (
        WIDTH as int),
        DisplayRotation::Rotate270 => ((HEIGHT as int) - 1 - y) + x * (HEIGHT as int),
    }
}

/// Mask selecting a bit offset's position inside its byte, most
/// significant bit first.
pub open spec fn bit_mask(off: int) -> u8 {
    0x80u8 >> ((off % 8) as usize)
}

/// Whether the bit at offset `off` of a plane is set.
pub open spec fn bit_of(plane: Seq<u8>, off: int) -> bool {
    plane[off / 8] & bit_mask(off) != 0
}

/// The plane with the bit at offset `off` set to `b`.
pub open spec fn write_bit(plane: Seq<u8>, off: int, b: bool) -> Seq<u8> {
    plane.update(
        off / 8,
        if b {
            plane[off / 8] | bit_mask(off)
        } else {
            plane[off / 8] & !bit_mask(off)
        },
    )
}

/// A full plane holding `value` in every byte.
pub open spec fn filled(value: u8) -> Seq<u8> {
    Seq::new(PLANE_BYTES as nat, |i: int| value)
}

/// Every byte complemented.
pub open spec fn complement_bytes(s: Seq<u8>) -> Seq<u8> {
    Seq::new(s.len(), |i: int| !s[i])
}

/// Low bit of a gray level's luma.
pub open spec fn luma_bit0(c: Color) -> bool {
    c == Color::DarkGray || c == Color::White
}

/// High bit of a gray level's luma.
pub open spec fn luma_bit1(c: Color) -> bool {
    c == Color::LightGray || c == Color::White
}

/// Byte a plane is flooded with when its pixels all take bit value `b`.
pub open spec fn clear_fill(b: bool) -> u8 {
    if b {
        0xff
    } else {
        0x00
    }
}

/// Both planes after drawing one pixel: out-of-bounds requests are
/// dropped; otherwise each luma bit, complemented when `inv` is set, is
/// stored at the rotation's bit offset.
pub open spec fn draw_one(
    p1: Seq<u8>,
    p2: Seq<u8>,
    inv: bool,
    rot: DisplayRotation,
    px: Pixel,
) -> (Seq<u8>, Seq<u8>) {
    if in_bounds(px.x as int, px.y as int) {
        let off = pixel_offset(rot, px.x as int, px.y as int);
        (
            write_bit(p1, off, luma_bit0(px.color) != inv),
            write_bit(p2, off, luma_bit1(px.color) != inv),
        )
    } else {
        (p1, p2)
    }
}

/// Both planes after drawing a sequence of pixels in order.
pub open spec fn draw_all(
    p1: Seq<u8>,
    p2: Seq<u8>,
    inv: bool,
    rot: DisplayRotation,
    ps: Seq<Pixel>,
) -> (Seq<u8>, Seq<u8>)
    decreases ps.len(),
{
    if ps.len() == 0 {
        (p1, p2)
    } else {
        let prev = draw_all(p1, p2, inv, rot, ps.drop_last());
        draw_one(prev.0, prev.1, inv, rot, ps.last())
    }
}

/// Luma read back from the planes at a coordinate pair: each plane
/// contributes one bit, complemented when `inv` is set.
pub open spec fn plane_luma(
    p1: Seq<u8>,
    p2: Seq<u8>,
    inv: bool,
    rot: DisplayRotation,
    x: int,
    y: int,
) -> u8 {
    let off = pixel_offset(rot, x, y);
    let b1 = bit_of(p1, off) != inv;
    let b2 = bit_of(p2, off) != inv;
    if b2 {
        if b1 {
            3u8
        } else {
            2u8
        }
    } else {
        if b1 {
            1u8
        } else {
            0u8
        }
    }
}

/// Law: under every rotation, each in-bounds coordinate pair maps to an
/// offset inside the panel's pixel count.
pub proof fn lemma_pixel_offset_in_range(rot: DisplayRotation, x: int, y: int)
    requires
        in_bounds(x, y),
    ensures
        0 <= pixel_offset(rot, x, y) < 8 * PLANE_BYTES,
{
}

/// Law: under every rotation, distinct in-bounds coordinate pairs map to
/// distinct bit offsets.
pub proof fn lemma_pixel_offset_injective(
    rot: DisplayRotation,
    x1: int,
    y1: int,
    x2: int,
    y2: int,
)
    requires
        in_bounds(x1, y1),
        in_bounds(x2, y2),
        pixel_offset(rot, x1, y1) == pixel_offset(rot, x2, y2),
    ensures
        x1 == x2,
        y1 == y2,
{
}

/// Complementing every byte of a plane twice restores it.
pub proof fn lemma_complement_involutive(s: Seq<u8>)
    ensures
        complement_bytes(complement_bytes(s)) == s,
{
    assert forall|i: int| 0 <= i < s.len() implies !(!s[i]) == s[i] by {
        let b = s[i];
        assert(!(!b) == b) by (bit_vector);
    }
    assert(complement_bytes(complement_bytes(s)) =~= s);
}

/// Law: inverting the display twice restores both bit-planes and the
/// inversion flag, whatever the planes hold. One application complements
/// the planes and flips the flag, so two applications are the identity.
pub proof fn lemma_invert_involutive(p1: Seq<u8>, p2: Seq<u8>, inv: bool)
    ensures
        complement_bytes(complement_bytes(p1)) == p1,
        complement_bytes(complement_bytes(p2)) == p2,
        !!inv == inv,
{
    lemma_complement_involutive(p1);
    lemma_complement_involutive(p2);
}

/// The bit any in-range offset selects in a flooded plane: set in an
/// all-ones plane, clear in an all-zeros plane.
pub proof fn lemma_bit_of_filled(off: int)
    requires
        0 <= off < 8 * PLANE_BYTES,
    ensures
        bit_of(filled(0xff), off),
        !bit_of(filled(0x00), off),
{
    let sh = (off % 8) as usize;
    assert(0xffu8 & (0x80u8 >> sh) != 0 && 0x00u8 & (0x80u8 >> sh) == 0) by (bit_vector)
        requires
            sh < 8,
    ;
}

/// Law: after clearing to a color, every in-bounds pixel reads back that
/// color's luma, under any rotation and either state of the inversion flag.
pub proof fn lemma_clear_reads_back(color: Color, inv: bool, rot: DisplayRotation, x: int, y: int)
    requires
        in_bounds(x, y),
    ensures
        plane_luma(
            filled(clear_fill(luma_bit0(color) != inv)),
            filled(clear_fill(luma_bit1(color) != inv)),
            inv,
            rot,
            x,
            y,
        ) == color.luma_spec(),
{
    lemma_pixel_offset_in_range(rot, x, y);
    let off = pixel_offset(rot, x, y);
    lemma_bit_of_filled(off);
}

/// Writing a bit and reading the same offset back yields the written bit.
pub proof fn lemma_write_bit_read(plane: Seq<u8>, off: int, b: bool)
    requires
        plane.len() == PLANE_BYTES,
        0 <= off < 8 * PLANE_BYTES,
    ensures
        bit_of(write_bit(plane, off, b), off) == b,
{
    let v = plane[off / 8];
    let sh = (off % 8) as usize;
    assert((v | (0x80u8 >> sh)) & (0x80u8 >> sh) != 0 && (v & !(0x80u8 >> sh)) & (0x80u8 >> sh)
        == 0) by (bit_vector)
        requires
            sh < 8,
    ;
}

/// Law: drawing a pixel and reading its coordinate back yields the drawn
/// luma, under any rotation and either state of the inversion flag.
pub proof fn lemma_draw_reads_back(
    p1: Seq<u8>,
    p2: Seq<u8>,
    inv: bool,
    rot: DisplayRotation,
    px: Pixel,
)
    requires
        p1.len() == PLANE_BYTES,
        p2.len() == PLANE_BYTES,
        in_bounds(px.x as int, px.y as int),
    ensures
        plane_luma(
            draw_one(p1, p2, inv, rot, px).0,
            draw_one(p1, p2, inv, rot, px).1,
            inv,
            rot,
            px.x as int,
            px.y as int,
        ) == px.color.luma_spec(),
{
    lemma_pixel_offset_in_range(rot, px.x as int, px.y as int);
    let off = pixel_offset(rot, px.x as int, px.y as int);
    lemma_write_bit_read(p1, off, luma_bit0(px.color) != inv);
    lemma_write_bit_read(p2, off, luma_bit1(px.color) != inv);
}

/// Interface a framebuffer offers to the controller driver: access to the
/// two bit-planes, the rotation selector, and whole-buffer operations.
pub trait Display: Sized {
    /// First bit-plane, eight pixels per byte.
    spec fn plane1(&self) -> Seq<u8>;

    /// Second bit-plane.
    spec fn plane2(&self) -> Seq<u8>;

    /// Whether the stored planes are complemented relative to the drawn luma bits.
    spec fn is_inverted(&self) -> bool;

    /// Active rotation.
    spec fn rot(&self) -> DisplayRotation;

    /// Both planes hold exactly one byte per eight panel pixels.
    spec fn wf(&self) -> bool;

    /// Floods both planes with the bit pattern encoding `color` at every pixel.
    fn clear_buffer(&mut self, color: Color)
        requires
            old(self).wf(),
        ensures
            final(self).wf(),
            final(self).plane1() == filled(
                clear_fill(luma_bit0(color) != old(self).is_inverted()),
            ),
            final(self).plane2() == filled(
                clear_fill(luma_bit1(color) != old(self).is_inverted()),
            ),
            final(self).is_inverted() == old(self).is_inverted(),
            final(self).rot() == old(self).rot(),
    ;

    /// Returns the first bit-plane.
    fn buffer1(&self) -> (r: &[u8])
        ensures
            r@ == self.plane1(),
    ;

    /// Returns the second bit-plane.
    fn buffer2(&self) -> (r: &[u8])
        ensures
            r@ == self.plane2(),
    ;

    /// Returns both bit-planes.
    fn buffers(&self) -> (r: (&[u8], &[u8]))
        ensures
            r.0@ == self.plane1(),
            r.1@ == self.plane2(),
    ;

    /// Selects the rotation used by subsequent draw calls; stored bits stay as they are.
    fn set_rotation(&mut self, rotation: DisplayRotation)
        ensures
            final(self).rot() == rotation,
            final(self).plane1() == old(self).plane1(),
            final(self).plane2() == old(self).plane2(),
            final(self).is_inverted() == old(self).is_inverted(),
            final(self).wf() == old(self).wf(),
    ;

    /// The active rotation.
    fn rotation(&self) -> (r: DisplayRotation)
        ensures
            r == self.rot(),
    ;

    /// Flips the inversion flag and complements every byte of both planes.
    fn invert_display(&mut self)
        requires
            old(self).wf(),
        ensures
            final(self).wf(),
            final(self).is_inverted() == !old(self).is_inverted(),
            final(self).plane1() == complement_bytes(old(self).plane1()),
            final(self).plane2() == complement_bytes(old(self).plane2()),
            final(self).rot() == old(self).rot(),
    ;
}

/// Framebuffer for the 200 by 200 panel: two bit-planes, a rotation
/// selector, and an inversion flag.
pub struct Display1in54 {
    buffer1: Vec<u8>,
    buffer2: Vec<u8>,
    rotation: DisplayRotation,
    inverted: bool,
}

/// A fresh plane: every byte `value`.
fn filled_plane(value: u8) -> (r: Vec<u8>)
    ensures
        r@ == filled(value),
{
    let mut v: Vec<u8> = Vec::new();
    let mut i: usize = 0;
    while i < PLANE_BYTES
        invariant
            i <= PLANE_BYTES,
            v@.len() == i,
            forall|k: int| 0 <= k < i ==> v@[k] == value,
        decreases PLANE_BYTES - i,
    {
        v.push(value);
        i += 1;
    }
    proof {
        assert(v@ =~= filled(value));
    }
    v
}

/// Writes bit `b` at offset `off` of a plane, most significant bit first
/// within each byte.
fn put_bit(plane: &mut Vec<u8>, off: usize, b: bool)
    requires
        old(plane)@.len() == PLANE_BYTES,
        off < 8 * PLANE_BYTES,
    ensures
        final(plane)@ == write_bit(old(plane)@, off as int, b),
        final(plane)@.len() == PLANE_BYTES,
{
    let idx: usize = off / 8;
    let sh: usize = off % 8;
    let mask: u8 = 0x80u8 >> sh;
    let cur: u8 = plane[idx];
    if b {
        plane.set(idx, cur | mask);
    } else {
        plane.set(idx, cur & !mask);
    }
}

impl Display1in54 {
    /// Create a framebuffer: both planes all ones, no rotation, not inverted.
    pub fn new() -> (r: Display1in54)
        ensures
            r.wf(),
            r.plane1() == filled(0xff),
            r.plane2() == filled(0xff),
            !r.is_inverted(),
            r.rot() == DisplayRotation::Rotate0,
    {
        Display1in54 {
            buffer1: filled_plane(0xff),
            buffer2: filled_plane(0xff),
            rotation: DisplayRotation::Rotate0,
            inverted: false,
        }
    }

    /// The bit each plane stores for `color`: the luma bit, complemented
    /// when the inversion flag is set.
    pub fn get_color_bits(&self, color: Color) -> (r: (bool, bool))
        ensures
            r.0 == (luma_bit0(color) != self.is_inverted()),
            r.1 == (luma_bit1(color) != self.is_inverted()),
    {
        let luma = color.luma();
        let c1 = (luma & 1) == 1;
        let c2 = ((luma >> 1u8) & 1) == 1;
        proof {
            let l = color.luma_spec();
            assert((l & 1 == 1) == (l == 1 || l == 3)) by (bit_vector)
                requires
                    l < 4,
            ;
            assert(((l >> 1u8) & 1 == 1) == (l == 2 || l == 3)) by (bit_vector)
                requires
                    l < 4,
            ;
        }
        if self.inverted {
            (!c1, !c2)
        } else {
            (c1, c2)
        }
    }

    /// Drawable area of the panel.
    pub fn bounding_box(&self) -> (r: Rect)
        ensures
            r == (Rect { x: 0, y: 0, width: WIDTH as u32, height: HEIGHT as u32 }),
    {
        Rect { x: 0, y: 0, width: WIDTH as u32, height: HEIGHT as u32 }
    }

    /// Draws each pixel in order. Out-of-bounds pixels are dropped: the
    /// panel's first row and column are reserved.
    pub fn draw_iter(&mut self, pixels: &Vec<Pixel>)
        requires
            old(self).wf(),
        ensures
            final(self).wf(),
            final(self).plane1() == draw_all(
                old(self).plane1(),
                old(self).plane2(),
                old(self).is_inverted(),
                old(self).rot(),
                pixels@,
            ).0,
            final(self).plane2() == draw_all(
                old(self).plane1(),
                old(self).plane2(),
                old(self).is_inverted(),
                old(self).rot(),
                pixels@,
            ).1,
            final(self).is_inverted() == old(self).is_inverted(),
            final(self).rot() == old(self).rot(),
    {
        let ghost p1_0 = self.buffer1@;
        let ghost p2_0 = self.buffer2@;
        let ghost inv0 = self.inverted;
        let ghost rot0 = self.rotation;
        let mut i: usize = 0;
        while i < pixels.len()
            invariant
                i <= pixels@.len(),
                self.buffer1@.len() == PLANE_BYTES,
                self.buffer2@.len() == PLANE_BYTES,
                self.inverted == inv0,
                self.rotation == rot0,
                self.buffer1@ == draw_all(p1_0, p2_0, inv0, rot0, pixels@.take(i as int)).0,
                self.buffer2@ == draw_all(p1_0, p2_0, inv0, rot0, pixels@.take(i as int)).1,
            decreases pixels@.len() - i,
        {
            let px = pixels[i];
            if px.x < WIDTH as i32 && px.y < HEIGHT as i32 && px.x > 0 && px.y > 0 {
                let x = px.x as usize;
                let y = px.y as usize;
                let color = self.get_color_bits(px.color);
                let off: usize = match self.rotation {
                    DisplayRotation::Rotate0 => x + y * WIDTH,
                    DisplayRotation::Rotate90 => y + x * HEIGHT,
                    DisplayRotation::Rotate180 => ((WIDTH - 1) - x) + ((HEIGHT - 1) - y) * WIDTH,
                    DisplayRotation::Rotate270 => ((HEIGHT - 1) - y) + x * HEIGHT,
                };
                proof {
                    assert(off as int == pixel_offset(rot0, px.x as int, px.y as int));
                }
                put_bit(&mut self.buffer1, off, color.0);
                put_bit(&mut self.buffer2, off, color.1);
            }
            proof {
                assert(pixels@.take(i + 1).drop_last() =~= pixels@.take(i as int));
                assert(pixels@.take(i + 1).last() == pixels@[i as int]);
            }
            i += 1;
        }
        proof {
            assert(pixels@.take(pixels@.len() as int) =~= pixels@);
        }
    }

    /// Luma stored at an in-bounds coordinate pair under the active rotation.
    pub fn get_pixel(&self, x: i32, y: i32) -> (r: u8)
        requires
            self.wf(),
            in_bounds(x as int, y as int),
        ensures
            r == plane_luma(self.plane1(), self.plane2(), self.is_inverted(), self.rot(), x as int, y as int),
    {
        let xu = x as usize;
        let yu = y as usize;
        let off: usize = match self.rotation {
            DisplayRotation::Rotate0 => xu + yu * WIDTH,
            DisplayRotation::Rotate90 => yu + xu * HEIGHT,
            DisplayRotation::Rotate180 => ((WIDTH - 1) - xu) + ((HEIGHT - 1) - yu) * WIDTH,
            DisplayRotation::Rotate270 => ((HEIGHT - 1) - yu) + xu * HEIGHT,
        };
        proof {
            assert(off as int == pixel_offset(self.rot(), x as int, y as int));
        }
        let idx: usize = off / 8;
        let sh: usize = off % 8;
        let mask: u8 = 0x80u8 >> sh;
        let b1 = ((self.buffer1[idx] & mask) != 0) != self.inverted;
        let b2 = ((self.buffer2[idx] & mask) != 0) != self.inverted;
        if b2 {
            if b1 {
                3
            } else {
                2
            }
        } else {
            if b1 {
                1
            } else {
                0
            }
        }
    }

    /// Same as `clear_buffer`: floods both planes with the pattern for `color`.
    pub fn clear(&mut self, color: Color)
        requires
            old(self).wf(),
        ensures
            final(self).wf(),
            final(self).plane1() == filled(
                clear_fill(luma_bit0(color) != old(self).is_inverted()),
            ),
            final(self).plane2() == filled(
                clear_fill(luma_bit1(color) != old(self).is_inverted()),
            ),
            final(self).is_inverted() == old(self).is_inverted(),
            final(self).rot() == old(self).rot(),
    {
        self.clear_buffer(color);
    }
}

impl Display for Display1in54 {
    closed spec fn plane1(&self) -> Seq<u8> {
        self.buffer1@
    }

    closed spec fn plane2(&self) -> Seq<u8> {
        self.buffer2@
    }

    closed spec fn is_inverted(&self) -> bool {
        self.inverted
    }

    closed spec fn rot(&self) -> DisplayRotation {
        self.rotation
    }

    closed spec fn wf(&self) -> bool {
        self.buffer1@.len() == PLANE_BYTES && self.buffer2@.len() == PLANE_BYTES
    }

    fn clear_buffer(&mut self, color: Color) {
        let bits = self.get_color_bits(color);
        self.buffer1 = filled_plane(
            if bits.0 {
                0xff
            } else {
                0x00
            },
        );
        self.buffer2 = filled_plane(
            if bits.1 {
                0xff
            } else {
                0x00
            },
        );
    }

    fn buffer1(&self) -> (r: &[u8]) {
        self.buffer1.as_slice()
    }

    fn buffer2(&self) -> (r: &[u8]) {
        self.buffer2.as_slice()
    }

    fn buffers(&self) -> (r: (&[u8], &[u8])) {
        (self.buffer1.as_slice(), self.buffer2.as_slice())
    }

    fn set_rotation(&mut self, rotation: DisplayRotation) {
        self.rotation = rotation;
    }

    fn rotation(&self) -> (r: DisplayRotation) {
        self.rotation
    }

    fn invert_display(&mut self) {
        self.inverted = !self.inverted;
        let ghost p1_0 = self.buffer1@;
        let ghost p2_0 = self.buffer2@;
        let mut i: usize = 0;
        while i < PLANE_BYTES
            invariant
                i <= PLANE_BYTES,
                self.buffer1@.len() == PLANE_BYTES,
                self.buffer2@.len() == PLANE_BYTES,
                p1_0.len() == PLANE_BYTES,
                p2_0.len() == PLANE_BYTES,
                self.inverted == !old(self).is_inverted(),
                self.rotation == old(self).rot(),
                forall|k: int| 0 <= k < i ==> self.buffer1@[k] == !p1_0[k],
                forall|k: int| i <= k < PLANE_BYTES ==> self.buffer1@[k] == p1_0[k],
                forall|k: int| 0 <= k < i ==> self.buffer2@[k] == !p2_0[k],
                forall|k: int| i <= k < PLANE_BYTES ==> self.buffer2@[k] == p2_0[k],
            decreases PLANE_BYTES - i,
        {
            let v1 = self.buffer1[i];
            self.buffer1.set(i, !v1);
            let v2 = self.buffer2[i];
            self.buffer2.set(i, !v2);
            i += 1;
        }
        proof {
            assert(self.buffer1@ =~= complement_bytes(p1_0));
            assert(self.buffer2@ =~= complement_bytes(p2_0));
        }
    }
}

} // verus!
