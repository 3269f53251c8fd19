//! Byte-level description of the swap header layout.
//!
//! The header lives inside the first page of the swap area: an information
//! block at offset 1024 (version, last usable page index, bad-page count,
//! identifier, label) and a ten-byte magic signature ending exactly at the
//! end of the first page.

use vstd::prelude::*;

verus! {

/// Little-endian encoding of a 32-bit value: the four bytes that the header
/// stores for each of its integer fields.
pub open spec fn le32(x: u32) -> Seq<u8> {
    seq![
        (x % 256) as u8,
        ((x / 256) % 256) as u8,
        ((x / 65536) % 256) as u8,
        ((x / 16777216) % 256) as u8,
    ]
}

/// The ten magic bytes, ASCII `SWAPSPACE2`, that mark a formatted area.
pub open spec fn magic_seq() -> Seq<u8> {
    seq![0x53u8, 0x57u8, 0x41u8, 0x50u8, 0x53u8, 0x50u8, 0x41u8, 0x43u8, 0x45u8, 0x32u8]
}

/// The information block emitted at offset 1024: version 1, the last usable
/// page index, a bad-page count of zero, the 16-byte identifier, and the
/// label bytes (unpadded).
pub open spec fn info_region(last_page: u32, id: Seq<u8>, label: Seq<u8>) -> Seq<u8> {
    le32(1) + le32(last_page) + le32(0) + id + label
}

/// `base` with `patch` written over it starting at offset `off`: bytes under
/// the patch are replaced, bytes of `base` outside it are kept, and any gap
/// between the end of `base` and the patched range reads as zero.
pub open spec fn splice(base: Seq<u8>, off: int, patch: Seq<u8>) -> Seq<u8>
    recommends
        0 <= off,
{
    Seq::new(
        if base.len() >= off + patch.len() {
            base.len()
        } else {
            (off + patch.len()) as nat
        },
        |i: int|
            if off <= i < off + patch.len() {
                patch[i - off]
            } else if i < base.len() {
                base[i]
            } else {
                0u8
            },
    )
}

/// The destination's bytes after a complete header write: the information
/// block spliced in at offset 1024, then the magic signature spliced in so
/// that it ends at the first page boundary. The signature is written last,
/// so on degenerate geometries where the two ranges overlap it wins.
pub open spec fn header_image(
    base: Seq<u8>,
    page_size: int,
    last_page: u32,
    id: Seq<u8>,
    label: Seq<u8>,
) -> Seq<u8> {
    splice(splice(base, 1024, info_region(last_page, id, label)), page_size - 10, magic_seq())
}

/// Where each field of the header ends up: in an image whose magic
/// signature does not reach back into the information block, the version
/// field reads 1 at offset 1024, the last-page field at 1028, a zero
/// bad-page count at 1032, the identifier at 1036, the label verbatim at
/// 1052, and the magic signature just below the first page boundary; every
/// byte of the destination outside those ranges is kept, and bytes past its
/// old end read as zero.
pub proof fn lemma_image_fields(
    base: Seq<u8>,
    ps: int,
    last_page: u32,
    id: Seq<u8>,
    label: Seq<u8>,
)
    requires
        id.len() == 16,
        label.len() <= 16,
        10 <= ps,
        1052 + label.len() <= ps - 10,
    ensures
        ({
            let image = header_image(base, ps, last_page, id, label);
            &&& image.len() >= ps
            &&& image.len() >= base.len()
            &&& (forall|k: int| 0 <= k < 4 ==> image[1024 + k] == le32(1)[k])
            &&& (forall|k: int| 0 <= k < 4 ==> image[1028 + k] == le32(last_page)[k])
            &&& (forall|k: int| 0 <= k < 4 ==> image[1032 + k] == le32(0)[k])
            &&& (forall|k: int| 0 <= k < 16 ==> image[1036 + k] == id[k])
            &&& (forall|j: int| 0 <= j < label.len() ==> image[1052 + j] == label[j])
            &&& (forall|k: int| 0 <= k < 10 ==> image[ps - 10 + k] == magic_seq()[k])
            &&& (forall|i: int|
                0 <= i < image.len() && !(1024 <= i < 1052 + label.len()) && !(ps - 10 <= i < ps)
                    ==> image[i] == (if i < base.len() {
                    base[i]
                } else {
                    0u8
                }))
        }),
{
    let info = info_region(last_page, id, label);
    let inner = splice(base, 1024, info);
    let image = header_image(base, ps, last_page, id, label);
    assert(info.len() == 28 + label.len());
    assert forall|k: int| 0 <= k < info.len() implies inner[1024 + k] == info[k] by {}
    assert forall|k: int| 0 <= k < 4 implies info[k] == le32(1)[k] by {}
    assert forall|k: int| 0 <= k < 4 implies info[4 + k] == le32(last_page)[k] by {
        assert((le32(1) + le32(last_page))[4 + k] == le32(last_page)[k]);
    }
    assert forall|k: int| 0 <= k < 4 implies info[8 + k] == le32(0)[k] by {
        assert((le32(1) + le32(last_page) + le32(0))[8 + k] == le32(0)[k]);
    }
    assert forall|k: int| 0 <= k < 16 implies info[12 + k] == id[k] by {
        assert((le32(1) + le32(last_page) + le32(0) + id)[12 + k] == id[k]);
    }
    assert forall|j: int| 0 <= j < label.len() implies info[28 + j] == label[j] by {}
    assert(image == splice(inner, ps - 10, magic_seq()));
}

/// Two destinations given the same resolved fields receive identical header
/// bytes: at every offset of the information block and of the magic
/// signature, the images over the two destinations agree, whatever bytes
/// each held before.
pub proof fn lemma_header_deterministic(
    b1: Seq<u8>,
    b2: Seq<u8>,
    ps: int,
    last_page: u32,
    id: Seq<u8>,
    label: Seq<u8>,
    i: int,
)
    requires
        id.len() == 16,
        label.len() <= 16,
        10 <= ps,
        (1024 <= i < 1052 + label.len()) || (ps - 10 <= i < ps),
    ensures
        header_image(b1, ps, last_page, id, label)[i] == header_image(
            b2,
            ps,
            last_page,
            id,
            label,
        )[i],
{
    let info = info_region(last_page, id, label);
    assert(info.len() == 28 + label.len());
}

/// Appends the little-endian bytes of `x` to `out`.
pub fn push_le32(out: &mut Vec<u8>, x: u32)
    ensures
        final(out)@ == old(out)@ + le32(x),
{
    out.push((x % 256) as u8);
    out.push(((x / 256) % 256) as u8);
    out.push(((x / 65536) % 256) as u8);
    out.push(((x / 16777216) % 256) as u8);
    proof {
        assert(out@ =~= old(out)@ + le32(x));
    }
}

/// The magic signature as an owned byte vector.
pub fn magic_bytes() -> (r: Vec<u8>)
    ensures
        r@ == magic_seq(),
{
    let mut m: Vec<u8> = Vec::new();
    m.push(0x53u8);
    m.push(0x57u8);
    m.push(0x41u8);
    m.push(0x50u8);
    m.push(0x53u8);
    m.push(0x50u8);
    m.push(0x41u8);
    m.push(0x43u8);
    m.push(0x45u8);
    m.push(0x32u8);
    proof {
        assert(m@ =~= magic_seq());
    }
    m
}

} // verus!
