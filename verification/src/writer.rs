//! The header writer: a builder of optional configuration values and the
//! operation that resolves them, validates the geometry, and emits the
//! header into a destination buffer.

use crate::buffer::Buffer;
use crate::layout::{header_image, info_region, magic_bytes, magic_seq, push_le32, splice};
use vstd::prelude::*;

verus! {

/// The label field holds at most this many bytes.
pub const MAXIMUM_LABEL_BYTES: usize = 16;

/// A swap area must span at least this many pages.
pub const MINIMUM_PAGES: u32 = 10;

/// Errors that can occur while configuring and writing a swap header.
#[derive(Clone, Copy, Debug, PartialEq, Eq, Structural)]
pub enum Error {
    /// The host's page size cannot be used in the header's offset and size
    /// arithmetic.
    GiganticPageSize,
    /// Querying the destination for its size failed.
    SizeDetection,
    /// The label exceeds the 16-byte label field.
    LabelTooLong,
    /// The area spans fewer than the minimum number of pages; carries the
    /// page count that was computed.
    TooFewPages(u32),
    /// A seek or write failed while the header was being emitted.
    WriteHeader,
}

/// A builder to construct a swap space header.
///
/// None of the values are mandatory: an unset identifier is generated at
/// random, an unset label is treated as empty, an unset page size is taken
/// from the host, and an unset total size is detected from the destination.
pub struct SwapWriter {
    uuid: Option<Vec<u8>>,
    label: Option<Vec<u8>>,
    page_size: Option<u64>,
    size: Option<u64>,
}

/// A resolved header: the information block to place at offset 1024, the
/// offset of the magic signature, and the total size of the area.
pub struct SwapHeader {
    info: Vec<u8>,
    magic_offset: u64,
    total_size: u64,
}

impl SwapHeader {
    /// The bytes of the information block.
    pub closed spec fn info_view(&self) -> Seq<u8> {
        self.info@
    }

    /// The absolute offset at which the magic signature is written.
    pub closed spec fn magic_offset_view(&self) -> u64 {
        self.magic_offset
    }

    /// The total size of the area in bytes.
    pub closed spec fn total_size_view(&self) -> u64 {
        self.total_size
    }

    /// The information block to write at offset 1024.
    pub fn info(&self) -> (r: &Vec<u8>)
        ensures
            r@ == self.info_view(),
    {
        &self.info
    }

    /// The absolute offset at which the magic signature is written.
    pub fn magic_offset(&self) -> (r: u64)
        ensures
            r == self.magic_offset_view(),
    {
        self.magic_offset
    }

    /// The total size of the area in bytes.
    pub fn total_size(&self) -> (r: u64)
        ensures
            r == self.total_size_view(),
    {
        self.total_size
    }
}

impl SwapWriter {
    /// The configured identifier bytes, if one was set.
    pub closed spec fn uuid_cfg(&self) -> Option<Seq<u8>> {
        match self.uuid {
            Some(u) => Some(u@),
            None => None,
        }
    }

    /// The configured label bytes, if a label was set.
    pub closed spec fn label_cfg(&self) -> Option<Seq<u8>> {
        match self.label {
            Some(l) => Some(l@),
            None => None,
        }
    }

    /// The configured page size, if one was set.
    pub closed spec fn page_size_cfg(&self) -> Option<u64> {
        self.page_size
    }

    /// The configured total size, if one was set.
    pub closed spec fn size_cfg(&self) -> Option<u64> {
        self.size
    }
}

/// The label that a configuration resolves to: the configured bytes, or
/// empty when no label was set.
pub open spec fn resolved_label(w: SwapWriter) -> Seq<u8> {
    match w.label_cfg() {
        Some(l) => l,
        None => Seq::empty(),
    }
}

/// The total size that a configuration resolves to against a destination:
/// the configured size, or the destination's current length.
pub open spec fn resolved_total(w: SwapWriter, h: Buffer) -> u64 {
    match w.size_cfg() {
        Some(s) => s,
        None => h.bytes().len() as u64,
    }
}

/// The page count of an area: the total size divided by the page size,
/// saturated to the 32-bit field that stores it.
pub open spec fn sat_pages(total: u64, page_size: u64) -> u32
    recommends
        1 <= page_size,
{
    if total / page_size > u32::MAX as u64 {
        u32::MAX
    } else {
        (total / page_size) as u32
    }
}

/// What `render` promises once the page size `ps` is fixed: either the
/// geometry is too small and the exact error says so, or the result holds
/// the information block, built from some 16-byte identifier that equals
/// the configured one whenever one was configured.
pub open spec fn render_outcome(
    w: SwapWriter,
    total: u64,
    ps: u64,
    r: Result<SwapHeader, Error>,
) -> bool {
    if sat_pages(total, ps) < MINIMUM_PAGES {
        r == Err::<SwapHeader, Error>(Error::TooFewPages(sat_pages(total, ps)))
    } else {
        r matches Ok(h) && {
            &&& h.magic_offset_view() == ps - 10
            &&& h.total_size_view() == total
            &&& (exists|id: Seq<u8>|
                #![auto]
                {
                    &&& id.len() == 16
                    &&& (w.uuid_cfg() matches Some(u) ==> id == u)
                    &&& h.info_view() == info_region(
                        (sat_pages(total, ps) - 1) as u32,
                        id,
                        resolved_label(w),
                    )
                })
        }
    }
}

/// What `write` promises once the page size `ps` is fixed: on a too-small
/// geometry the destination's bytes are untouched, otherwise the bytes are
/// exactly the header image over the old contents and the cursor rests at
/// offset 0.
pub open spec fn write_outcome(
    w: SwapWriter,
    pre: Buffer,
    post: Buffer,
    ps: u64,
    total: u64,
    result: Result<u64, Error>,
) -> bool {
    let pages = sat_pages(total, ps);
    if pages < MINIMUM_PAGES {
        &&& result == Err::<u64, Error>(Error::TooFewPages(pages))
        &&& post.bytes() == pre.bytes()
        &&& post.cursor() == (if w.size_cfg() is Some {
            pre.cursor()
        } else {
            0
        })
    } else {
        &&& result == Ok::<u64, Error>(total)
        &&& post.cursor() == 0
        &&& (exists|id: Seq<u8>|
            #![auto]
            {
                &&& id.len() == 16
                &&& (w.uuid_cfg() matches Some(u) ==> id == u)
                &&& post.bytes() == header_image(
                    pre.bytes(),
                    ps as int,
                    (pages - 1) as u32,
                    id,
                    resolved_label(w),
                )
            })
    }
}

/// Everything `write` promises: the label is rejected exactly when it is
/// over-long and the destination is then untouched; an unusable host page
/// size is reported with the destination's bytes untouched; and otherwise
/// the outcome is `write_outcome` for the resolved page size — the
/// configured one, or some usable value the host supplied.
pub open spec fn write_spec(
    w: SwapWriter,
    pre: Buffer,
    post: Buffer,
    result: Result<u64, Error>,
) -> bool {
    let total = resolved_total(w, pre);
    let lbl = resolved_label(w);
    &&& (result == Err::<u64, Error>(Error::LabelTooLong) <==> lbl.len() > MAXIMUM_LABEL_BYTES)
    &&& (result == Err::<u64, Error>(Error::LabelTooLong) ==> post.bytes() == pre.bytes()
        && post.cursor() == pre.cursor())
    &&& (result == Err::<u64, Error>(Error::GiganticPageSize) ==> w.page_size_cfg() is None
        && post.bytes() == pre.bytes())
    &&& (lbl.len() <= MAXIMUM_LABEL_BYTES ==> (match w.page_size_cfg() {
        Some(ps) => write_outcome(w, pre, post, ps, total, result),
        None => {
            ||| result == Err::<u64, Error>(Error::GiganticPageSize)
            ||| (exists|ps: u64|
                #![auto]
                MINIMUM_PAGES as u64 <= ps && ps <= usize::MAX as u64 && write_outcome(
                    w,
                    pre,
                    post,
                    ps,
                    total,
                    result,
                ))
        },
    }))
}

/// Relies on `uuid::Uuid::new_v4`: a freshly generated random identifier,
/// sixteen bytes long by construction.
#[verifier::external_body]
fn random_identifier() -> (r: Vec<u8>)
    ensures
        r@.len() == 16,
{
    uuid::Uuid::new_v4().into_bytes().to_vec()
}

/// Relies on `page_size::get`: the host's memory page size in bytes. The
/// value originates as a `usize`, so it fits the address-space type.
#[verifier::external_body]
fn host_page_size() -> (r: u64)
    ensures
        r <= usize::MAX as u64,
{
    page_size::get() as u64
}

impl SwapWriter {
    /// Constructs a builder with every value unset.
    pub fn new() -> (r: SwapWriter)
        ensures
            r.uuid_cfg() is None,
            r.label_cfg() is None,
            r.page_size_cfg() is None,
            r.size_cfg() is None,
    {
        SwapWriter { uuid: None, label: None, page_size: None, size: None }
    }

    /// Sets the label. It must be at most 16 bytes, or an error is returned.
    pub fn label(self, label: Vec<u8>) -> (r: Result<SwapWriter, Error>)
        ensures
            label@.len() > MAXIMUM_LABEL_BYTES ==> r == Err::<SwapWriter, Error>(
                Error::LabelTooLong,
            ),
            label@.len() <= MAXIMUM_LABEL_BYTES ==> (r matches Ok(w) && {
                &&& w.label_cfg() == Some(label@)
                &&& w.uuid_cfg() == self.uuid_cfg()
                &&& w.page_size_cfg() == self.page_size_cfg()
                &&& w.size_cfg() == self.size_cfg()
            }),
    {
        if label.len() > MAXIMUM_LABEL_BYTES {
            return Err(Error::LabelTooLong);
        }
        Ok(SwapWriter { label: Some(label), ..self })
    }

    /// Sets the 16-byte identifier.
    pub fn uuid(self, uuid: Vec<u8>) -> (r: SwapWriter)
        requires
            uuid@.len() == 16,
        ensures
            r.uuid_cfg() == Some(uuid@),
            r.label_cfg() == self.label_cfg(),
            r.page_size_cfg() == self.page_size_cfg(),
            r.size_cfg() == self.size_cfg(),
    {
        SwapWriter { uuid: Some(uuid), ..self }
    }

    /// Sets the page size in bytes.
    pub fn page_size(self, page_size: u64) -> (r: SwapWriter)
        ensures
            r.page_size_cfg() == Some(page_size),
            r.uuid_cfg() == self.uuid_cfg(),
            r.label_cfg() == self.label_cfg(),
            r.size_cfg() == self.size_cfg(),
    {
        SwapWriter { page_size: Some(page_size), ..self }
    }

    /// Resolves every configuration value against an area of `total_size`
    /// bytes and validates it, producing the header fields to emit.
    ///
    /// An unset identifier is generated at random; an unset page size is
    /// taken from the host, and is rejected as unusable when it cannot carry
    /// the header's offset arithmetic.
    pub fn render(self, total_size: u64) -> (r: Result<SwapHeader, Error>)
        requires
            self.page_size_cfg() matches Some(p) ==> MINIMUM_PAGES as u64 <= p,
            self.uuid_cfg() matches Some(u) ==> u.len() == 16,
        ensures
            (r == Err::<SwapHeader, Error>(Error::LabelTooLong) <==> resolved_label(self).len()
                > MAXIMUM_LABEL_BYTES),
            r == Err::<SwapHeader, Error>(Error::GiganticPageSize) ==> self.page_size_cfg() is None,
            resolved_label(self).len() <= MAXIMUM_LABEL_BYTES ==> (match self.page_size_cfg() {
                Some(ps) => render_outcome(self, total_size, ps, r),
                None => {
                    ||| r == Err::<SwapHeader, Error>(Error::GiganticPageSize)
                    ||| (exists|ps: u64|
                        #![auto]
                        MINIMUM_PAGES as u64 <= ps && ps <= usize::MAX as u64 && render_outcome(
                            self,
                            total_size,
                            ps,
                            r,
                        ))
                },
            }),
    {
        let ghost w = self;
        let SwapWriter { uuid, label, page_size, size: _ } = self;
        let lbl: Vec<u8> = match label {
            Some(l) => l,
            None => Vec::new(),
        };
        if lbl.len() > MAXIMUM_LABEL_BYTES {
            return Err(Error::LabelTooLong);
        }
        let id: Vec<u8> = match uuid {
            Some(u) => u,
            None => random_identifier(),
        };
        let ps: u64 = match page_size {
            Some(p) => p,
            None => {
                let h = host_page_size();
                if h < MINIMUM_PAGES as u64 {
                    return Err(Error::GiganticPageSize);
                }
                h
            },
        };
        let q: u64 = total_size / ps;
        let pages: u32 = if q > u32::MAX as u64 {
            u32::MAX
        } else {
            q as u32
        };
        if pages < MINIMUM_PAGES {
            proof {
                let r = Err::<SwapHeader, Error>(Error::TooFewPages(pages));
                assert(sat_pages(total_size, ps) == pages);
                assert(render_outcome(w, total_size, ps, r));
                if w.page_size_cfg() is None {
                    assert(MINIMUM_PAGES as u64 <= ps && ps <= usize::MAX as u64
                        && render_outcome(w, total_size, ps, r));
                }
            }
            return Err(Error::TooFewPages(pages));
        }
        let ghost id_snap = id@;
        let ghost lbl_snap = lbl@;
        let mut info: Vec<u8> = Vec::new();
        push_le32(&mut info, 1);
        push_le32(&mut info, pages - 1);
        push_le32(&mut info, 0);
        let mut idv = id;
        info.append(&mut idv);
        let mut lblv = lbl;
        info.append(&mut lblv);
        proof {
            assert(info@ =~= info_region((pages - 1) as u32, id_snap, lbl_snap));
        }
        let hdr = SwapHeader { info, magic_offset: ps - 10, total_size };
        proof {
            let r = Ok::<SwapHeader, Error>(hdr);
            assert(sat_pages(total_size, ps) == pages);
            assert({
                &&& id_snap.len() == 16
                &&& (w.uuid_cfg() matches Some(u) ==> id_snap == u)
                &&& hdr.info_view() == info_region(
                    (sat_pages(total_size, ps) - 1) as u32,
                    id_snap,
                    resolved_label(w),
                )
            });
            assert(render_outcome(w, total_size, ps, r));
            if w.page_size_cfg() is None {
                assert(MINIMUM_PAGES as u64 <= ps && ps <= usize::MAX as u64
                    && render_outcome(w, total_size, ps, r));
            }
        }
        Ok(hdr)
    }
}

/// Determines the destination's size by seeking to its end, recording the
/// resulting offset, and seeking back to the start.
fn detect_size_bytes(handle: &mut Buffer) -> (r: u64)
    ensures
        final(handle).bytes() == old(handle).bytes(),
        final(handle).cursor() == 0,
        r == old(handle).bytes().len() as u64,
{
    handle.seek_end();
    let size = handle.stream_position();
    handle.seek_to(0);
    size as u64
}

/// Emits a resolved header into the destination: the information block at
/// offset 1024, then the magic signature at its offset, then a seek back to
/// the start.
fn emit(hdr: &SwapHeader, handle: &mut Buffer)
    requires
        1024 + hdr.info_view().len() <= usize::MAX,
        hdr.magic_offset_view() + 10 <= usize::MAX,
    ensures
        final(handle).bytes() == splice(
            splice(old(handle).bytes(), 1024, hdr.info_view()),
            hdr.magic_offset_view() as int,
            magic_seq(),
        ),
        final(handle).cursor() == 0,
{
    handle.seek_to(1024);
    handle.write_bytes(&hdr.info);
    handle.seek_to(hdr.magic_offset as usize);
    let m = magic_bytes();
    handle.write_bytes(&m);
    handle.seek_to(0);
}

impl SwapWriter {
    /// Writes the configured swap header into `handle` and returns the total
    /// size of the area.
    ///
    /// The label is validated before the destination is touched. An unset
    /// total size is detected by seeking the destination to its end and
    /// back. On success the destination holds exactly the header image over
    /// its previous contents and its cursor rests at offset 0.
    pub fn write(self, handle: &mut Buffer) -> (result: Result<u64, Error>)
        requires
            self.page_size_cfg() matches Some(p) ==> MINIMUM_PAGES as u64 <= p && p <= usize::MAX
                as u64,
            self.uuid_cfg() matches Some(u) ==> u.len() == 16,
        ensures
            write_spec(self, *old(handle), *final(handle), result),
    {
        match &self.label {
            Some(l) => {
                if l.len() > MAXIMUM_LABEL_BYTES {
                    proof {
                        assert(write_spec(
                            self,
                            *old(handle),
                            *handle,
                            Err::<u64, Error>(Error::LabelTooLong),
                        ));
                    }
                    return Err(Error::LabelTooLong);
                }
            },
            None => {},
        }
        let total: u64 = match self.size {
            Some(s) => s,
            None => detect_size_bytes(handle),
        };
        let ghost w_snap = self;
        let ghost pre = *handle;
        let r = self.render(total);
        let hdr = match r {
            Ok(h) => h,
            Err(e) => {
                proof {
                    assert(total == resolved_total(w_snap, *old(handle)));
                    assert(resolved_label(w_snap).len() <= MAXIMUM_LABEL_BYTES);
                    assert(r != Err::<SwapHeader, Error>(Error::LabelTooLong));
                    if resolved_label(w_snap).len() <= MAXIMUM_LABEL_BYTES {
                        let result = Err::<u64, Error>(e);
                        if w_snap.page_size_cfg() is Some {
                            let p = w_snap.page_size_cfg()->0;
                            assert(render_outcome(w_snap, total, p, r));
                            assert(write_outcome(w_snap, *old(handle), *handle, p, total, result));
                        } else if r != Err::<SwapHeader, Error>(Error::GiganticPageSize) {
                            let p = choose|ps: u64|
                                #![auto]
                                MINIMUM_PAGES as u64 <= ps && ps <= usize::MAX as u64
                                    && render_outcome(w_snap, total, ps, r);
                            assert(render_outcome(w_snap, total, p, r));
                            assert(MINIMUM_PAGES as u64 <= p && p <= usize::MAX as u64
                                && write_outcome(w_snap, *old(handle), *handle, p, total, result));
                        }
                    }
                    assert(write_spec(w_snap, *old(handle), *handle, Err::<u64, Error>(e)));
                }
                return Err(e);
            },
        };
        let ghost eps: u64 = if w_snap.page_size_cfg() is Some {
            w_snap.page_size_cfg()->0
        } else {
            choose|ps: u64|
                #![auto]
                MINIMUM_PAGES as u64 <= ps && ps <= usize::MAX as u64 && render_outcome(
                    w_snap,
                    total,
                    ps,
                    r,
                )
        };
        proof {
            assert(r != Err::<SwapHeader, Error>(Error::GiganticPageSize));
            assert(MINIMUM_PAGES as u64 <= eps && eps <= usize::MAX as u64);
            assert(render_outcome(w_snap, total, eps, r));
            assert(sat_pages(total, eps) >= MINIMUM_PAGES);
        }
        let ghost eid: Seq<u8> = choose|id: Seq<u8>|
            #![auto]
            {
                &&& id.len() == 16
                &&& (w_snap.uuid_cfg() matches Some(u) ==> id == u)
                &&& hdr.info_view() == info_region(
                    (sat_pages(total, eps) - 1) as u32,
                    id,
                    resolved_label(w_snap),
                )
            };
        proof {
            assert(eid.len() == 16 && hdr.info_view() == info_region(
                (sat_pages(total, eps) - 1) as u32,
                eid,
                resolved_label(w_snap),
            ));
            assert(hdr.info_view().len() == 28 + resolved_label(w_snap).len());
            assert(1024 + hdr.info_view().len() <= usize::MAX);
            assert(hdr.magic_offset_view() + 10 <= usize::MAX);
        }
        emit(&hdr, handle);
        proof {
            let result = Ok::<u64, Error>(total);
            assert(handle.bytes() == header_image(
                pre.bytes(),
                eps as int,
                (sat_pages(total, eps) - 1) as u32,
                eid,
                resolved_label(w_snap),
            ));
            assert(pre.bytes() == old(handle).bytes());
            assert(write_outcome(w_snap, *old(handle), *handle, eps, total, result));
            if w_snap.page_size_cfg() is None {
                assert(MINIMUM_PAGES as u64 <= eps && eps <= usize::MAX as u64
                    && write_outcome(w_snap, *old(handle), *handle, eps, total, result));
            }
            assert(total == resolved_total(w_snap, *old(handle)));
            assert(resolved_label(w_snap).len() <= MAXIMUM_LABEL_BYTES);
            assert(write_spec(w_snap, *old(handle), *handle, result));
        }
        Ok(total)
    }
}

} // verus!
