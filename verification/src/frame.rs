//! Panel geometry, bit-plane buffers and the resolution register payload.
//!
//! The panel composites two monochrome bit-planes (black/white and red)
//! that its own hardware overlays.  A plane holds one bit per pixel, rows
//! padded to whole bytes: bit 0 means the pixel is drawn, bit 1 means
//! background, so a fresh plane is all `0xFF` and a region is drawn by
//! writing `0x00` over its byte range.

use vstd::prelude::*;

verus! {

/// Width and height of the target panel, in pixels.  Fixed per panel model;
/// the demo hardware is 104 by 212.
#[derive(Clone, Copy, PartialEq, Eq, Structural, Debug)]
pub struct Geometry {
    pub width: u16,
    pub height: u16,
}

/// Bytes per bit-plane row: one bit per pixel, rounded up to whole bytes.
pub open spec fn bytes_per_row(g: Geometry) -> int {
    (g.width + 7) / 8
}

/// Bytes in one full bit-plane: row stride times row count.
pub open spec fn plane_len(g: Geometry) -> int {
    bytes_per_row(g) * g.height
}

/// The three payload bytes of the resolution-setting command: the width's
/// low byte, then the height split into high byte and low byte.
pub open spec fn resolution_payload(g: Geometry) -> Seq<u8> {
    seq![(g.width % 256) as u8, (g.height / 256) as u8, (g.height % 256) as u8]
}

/// The resolution payload determines the height exactly and carries the
/// width's low byte: the panel can reconstruct the declared geometry from
/// the three bytes alone (up to the width's high bits, which the one-byte
/// field cannot hold).
pub proof fn lemma_resolution_payload_decodes(g: Geometry)
    ensures
        resolution_payload(g).len() == 3,
        resolution_payload(g)[0] as int == g.width as int % 256,
        resolution_payload(g)[1] as int * 256 + resolution_payload(g)[2] as int == g.height as int,
{
}

/// Row stride and plane size as machine integers.
pub fn plane_size(g: Geometry) -> (n: usize)
    ensures
        n == plane_len(g),
{
    let stride: usize = (g.width as usize + 7) / 8;
    assert(stride * g.height as usize <= 8192 * 65535) by (nonlinear_arith)
        requires
            stride <= 8192,
            g.height <= 65535,
    ;
    stride * (g.height as usize)
}

/// The resolution command's payload for `g`, as transmitted.
pub fn resolution_bytes(g: Geometry) -> (p: Vec<u8>)
    ensures
        p@ == resolution_payload(g),
{
    let mut p: Vec<u8> = Vec::new();
    p.push((g.width % 256) as u8);
    p.push((g.height / 256) as u8);
    p.push((g.height % 256) as u8);
    proof {
        assert(p@ =~= resolution_payload(g));
    }
    p
}

/// A fresh bit-plane for `g`: every pixel background (`0xFF`).
pub fn new_plane(g: Geometry) -> (buf: Vec<u8>)
    ensures
        buf@.len() == plane_len(g),
        forall|i: int| 0 <= i < buf@.len() ==> buf@[i] == 0xFFu8,
{
    let n = plane_size(g);
    let mut buf: Vec<u8> = Vec::new();
    while buf.len() < n
        invariant
            buf@.len() <= n,
            forall|i: int| 0 <= i < buf@.len() ==> buf@[i] == 0xFFu8,
        decreases n - buf@.len(),
    {
        buf.push(0xFF);
    }
    buf
}

/// Draw the rows `start_row .. end_row` of a plane: their bytes become
/// `0x00`, every other byte keeps its value.
pub fn fill_rows(buf: &mut Vec<u8>, g: Geometry, start_row: u16, end_row: u16)
    requires
        old(buf)@.len() == plane_len(g),
        start_row <= end_row <= g.height,
    ensures
        final(buf)@.len() == old(buf)@.len(),
        forall|i: int|
            0 <= i < final(buf)@.len() ==> final(buf)@[i] == (
            if bytes_per_row(g) * start_row <= i < bytes_per_row(g) * end_row {
                0x00u8
            } else {
                old(buf)@[i]
            }),
{
    let stride: usize = (g.width as usize + 7) / 8;
    proof {
        assert(stride * start_row as int <= stride * end_row as int <= stride * g.height as int
            && stride * end_row as int <= 8192 * 65535) by (nonlinear_arith)
            requires
                start_row as int <= end_row as int <= g.height as int,
                0 <= stride <= 8192,
                end_row <= 65535,
        ;
    }
    let from: usize = stride * (start_row as usize);
    let to: usize = stride * (end_row as usize);
    let mut i: usize = from;
    while i < to
        invariant
            from <= i <= to <= buf@.len(),
            buf@.len() == old(buf)@.len(),
            forall|j: int|
                0 <= j < buf@.len() ==> buf@[j] == (
                if from <= j < i {
                    0x00u8
                } else {
                    old(buf)@[j]
                }),
        decreases to - i,
    {
        buf[i] = 0x00;
        i = i + 1;
    }
}

} // verus!
