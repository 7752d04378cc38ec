use vstd::prelude::*;

use crate::error::CaptureError;
use crate::texture::{copy_desc_of, TextureDesc};

verus! {

/// Pixels read back from a texture: `height` rows of `row_pitch` bytes each,
/// of which the first `width` pixels are image data.
pub struct Frame {
    pub height: u32,
    pub width: u32,
    pub row_pitch: u32,
    pub bytes: Vec<u8>,
}

/// The number of bytes a mapped texture region holds.
pub open spec fn mapped_len(height: u32, row_pitch: u32) -> int {
    height as int * row_pitch as int
}

/// The product of two `u32` values fits in a `u64`.
pub proof fn lemma_u32_product_fits(a: u32, b: u32)
    ensures
        0 <= a as int * b as int <= u64::MAX as int,
{
    assert(0 <= a as int * b as int <= 0xffff_ffffint * 0xffff_ffffint) by (nonlinear_arith)
        requires
            0 <= a <= 0xffff_ffffint,
            0 <= b <= 0xffff_ffffint,
    ;
}

/// Reads a mapped staging texture out into an owned frame. `mapped` is the
/// mapped region as handed out by the device, `row_pitch` the stride it
/// reported. A region shorter than `height * row_pitch` bytes is a map error.
pub fn read_mapped(desc: &TextureDesc, mapped: &[u8], row_pitch: u32) -> (r: Result<Frame, CaptureError>)
    ensures
        mapped@.len() < mapped_len(desc.height, row_pitch) <==> r is Err,
        r is Err ==> r->Err_0 == CaptureError::TextureMap,
        r is Ok ==> ({
            let f = r->Ok_0;
            &&& f.height == desc.height
            &&& f.width == desc.width
            &&& f.row_pitch == row_pitch
            &&& f.bytes@ == mapped@.subrange(0, mapped_len(desc.height, row_pitch))
        }),
{
    proof {
        lemma_u32_product_fits(desc.height, row_pitch);
    }
    let total: u64 = (desc.height as u64) * (row_pitch as u64);
    if total > mapped.len() as u64 {
        return Err(CaptureError::TextureMap);
    }
    let n: usize = total as usize;
    let mut bytes: Vec<u8> = Vec::with_capacity(n);
    let mut i: usize = 0;
    while i < n
        invariant
            n <= mapped@.len(),
            i <= n,
            bytes@ == mapped@.subrange(0, i as int),
        decreases n - i,
    {
        bytes.push(mapped[i]);
        i = i + 1;
        assert(bytes@ =~= mapped@.subrange(0, i as int));
    }
    Ok(Frame { height: desc.height, width: desc.width, row_pitch, bytes })
}

/// The first `row_len` bytes of each of the first `rows` rows of `bytes`,
/// rows being `pitch` bytes apart, one after the other.
pub open spec fn tight_rows(bytes: Seq<u8>, rows: nat, row_len: int, pitch: int) -> Seq<u8>
    decreases rows,
{
    if rows == 0 {
        Seq::empty()
    } else {
        let start = (rows - 1) * pitch;
        tight_rows(bytes, (rows - 1) as nat, row_len, pitch) + bytes.subrange(start, start + row_len)
    }
}

/// Rows with their padding removed hold `row_len` bytes each, and byte `i` of
/// row `r` is byte `i` of row `r` of the padded rows.
pub proof fn lemma_tight_rows(bytes: Seq<u8>, rows: nat, row_len: int, pitch: int)
    requires
        0 <= row_len <= pitch,
        rows * pitch <= bytes.len(),
    ensures
        tight_rows(bytes, rows, row_len, pitch).len() == rows * row_len,
        forall|r: int, i: int|
            0 <= r < rows && 0 <= i < row_len ==> #[trigger] tight_rows(bytes, rows, row_len, pitch)[r * row_len + i]
                == bytes[r * pitch + i],
    decreases rows,
{
    if rows > 0 {
        let k = (rows - 1) as nat;
        assert(k * pitch + pitch == rows * pitch) by (nonlinear_arith)
            requires
                k + 1 == rows,
        ;
        assert(k * pitch <= rows * pitch) by (nonlinear_arith)
            requires
                k + 1 == rows,
                pitch >= 0,
        ;
        lemma_tight_rows(bytes, k, row_len, pitch);
        assert(k * row_len + row_len == rows * row_len) by (nonlinear_arith)
            requires
                k + 1 == rows,
        ;
        assert forall|r: int, i: int|
            0 <= r < rows && 0 <= i < row_len implies #[trigger] tight_rows(bytes, rows, row_len, pitch)[r * row_len + i]
                == bytes[r * pitch + i] by {
            if r < k {
                assert(r * row_len + i < k * row_len) by (nonlinear_arith)
                    requires
                        r < k,
                        0 <= i < row_len,
                ;
                assert(tight_rows(bytes, k, row_len, pitch)[r * row_len + i] == bytes[r * pitch + i]);
            } else {
                assert(r == k);
            }
        }
    }
}

impl Frame {
    /// The image without row padding: `height` rows of `width * bytes_per_pixel`
    /// bytes each. `None` when such a row would not fit in the row pitch or the
    /// buffer is shorter than `height * row_pitch`.
    pub fn strip_row_padding(&self, bytes_per_pixel: u32) -> (r: Option<Vec<u8>>)
        ensures
            r is Some <==> (self.width as int * bytes_per_pixel as int <= self.row_pitch as int
                && mapped_len(self.height, self.row_pitch) <= self.bytes@.len()),
            r is Some ==> r->0@ == tight_rows(
                self.bytes@,
                self.height as nat,
                self.width as int * bytes_per_pixel as int,
                self.row_pitch as int,
            ),
    {
        proof {
            lemma_u32_product_fits(self.width, bytes_per_pixel);
            lemma_u32_product_fits(self.height, self.row_pitch);
        }
        let row_len: u64 = (self.width as u64) * (bytes_per_pixel as u64);
        let total: u64 = (self.height as u64) * (self.row_pitch as u64);
        if row_len > self.row_pitch as u64 || total > self.bytes.len() as u64 {
            return None;
        }
        let pitch: usize = self.row_pitch as usize;
        let row_len: usize = row_len as usize;
        let rows: usize = self.height as usize;
        let ghost bytes = self.bytes@;
        let blen: usize = self.bytes.len();
        let mut out: Vec<u8> = Vec::new();
        let mut r: usize = 0;
        while r < rows
            invariant
                rows == self.height,
                pitch == self.row_pitch,
                row_len <= pitch,
                bytes == self.bytes@,
                rows * pitch <= bytes.len(),
                bytes.len() == blen,
                r <= rows,
                out@ == tight_rows(bytes, r as nat, row_len as int, pitch as int),
            decreases rows - r,
        {
            assert(r * pitch + pitch <= rows * pitch) by (nonlinear_arith)
                requires
                    r < rows,
            ;
            let base: usize = r * pitch;
            let ghost done = out@;
            let mut j: usize = 0;
            while j < row_len
                invariant
                    row_len <= pitch,
                    bytes == self.bytes@,
                    base + pitch <= bytes.len(),
                    bytes.len() == blen,
                    j <= row_len,
                    out@ == done + bytes.subrange(base as int, base + j),
                decreases row_len - j,
            {
                out.push(self.bytes[base + j]);
                j = j + 1;
                assert(out@ =~= done + bytes.subrange(base as int, base + j));
            }
            assert(base as int == ((r + 1) as nat - 1) * pitch);
            r = r + 1;
        }
        Some(out)
    }
}

/// Whether the staging copy and the direct read see the same content they
/// return the same frame: the copy keeps the source's height and width, and
/// either path returns exactly `height * row_pitch` bytes of the mapped region.
pub proof fn lemma_readback_paths_agree(d: TextureDesc, mapped: Seq<u8>, row_pitch: u32)
    requires
        mapped_len(d.height, row_pitch) <= mapped.len(),
    ensures
        copy_desc_of(d, true).height == d.height,
        copy_desc_of(d, true).width == d.width,
        mapped.subrange(0, mapped_len(copy_desc_of(d, true).height, row_pitch))
            == mapped.subrange(0, mapped_len(d.height, row_pitch)),
        mapped.subrange(0, mapped_len(d.height, row_pitch)).len() == mapped_len(d.height, row_pitch),
{
    lemma_u32_product_fits(d.height, row_pitch);
}

/// Where a texture readback stands.
#[derive(Clone, Copy, Debug, PartialEq, Eq, Structural)]
pub enum ReadbackPhase {
    /// The CPU-readable texture is being obtained (directly or by a copy).
    Staging,
    /// The staging texture is being mapped.
    Mapping,
    /// The texture is mapped and its bytes are being copied out.
    Mapped,
    /// The texture is being unmapped; `copied` tells whether the bytes came out.
    Unmapping { copied: bool },
    /// The frame is ready.
    Finished,
    /// The readback failed with this error.
    Failed(CaptureError),
}

/// What the device reported for the last step.
#[derive(Clone, Copy, Debug, PartialEq, Eq, Structural)]
pub enum ReadbackEvent {
    StagingReady,
    StagingFailed,
    MapSucceeded,
    MapFailed,
    BytesCopied,
    CopyFailed,
    UnmapDone,
}

/// The step to perform next.
#[derive(Clone, Copy, Debug, PartialEq, Eq, Structural)]
pub enum ReadbackAction {
    MapStaging,
    CopyBytes,
    Unmap,
    ReturnFrame,
    Fail(CaptureError),
}

/// The readback protocol: stage, map, copy out, unmap. Once the map has
/// succeeded the next step is the unmap, whatever the copy reported.
pub open spec fn readback_next(p: ReadbackPhase, e: ReadbackEvent) -> (ReadbackPhase, ReadbackAction) {
    match p {
        ReadbackPhase::Staging => match e {
            ReadbackEvent::StagingReady => (ReadbackPhase::Mapping, ReadbackAction::MapStaging),
            _ => (ReadbackPhase::Failed(CaptureError::TextureCopy), ReadbackAction::Fail(CaptureError::TextureCopy)),
        },
        ReadbackPhase::Mapping => match e {
            ReadbackEvent::MapSucceeded => (ReadbackPhase::Mapped, ReadbackAction::CopyBytes),
            _ => (ReadbackPhase::Failed(CaptureError::TextureMap), ReadbackAction::Fail(CaptureError::TextureMap)),
        },
        ReadbackPhase::Mapped => {
            let copied = e == ReadbackEvent::BytesCopied;
            (ReadbackPhase::Unmapping { copied }, ReadbackAction::Unmap)
        },
        ReadbackPhase::Unmapping { copied } => if copied && e == ReadbackEvent::UnmapDone {
            (ReadbackPhase::Finished, ReadbackAction::ReturnFrame)
        } else {
            (ReadbackPhase::Failed(CaptureError::TextureMap), ReadbackAction::Fail(CaptureError::TextureMap))
        },
        ReadbackPhase::Finished => (ReadbackPhase::Finished, ReadbackAction::ReturnFrame),
        ReadbackPhase::Failed(err) => (ReadbackPhase::Failed(err), ReadbackAction::Fail(err)),
    }
}

/// The phase a readback starts in: obtaining the staging texture is the
/// caller's first step, after which it reports `StagingReady` or `StagingFailed`.
pub fn readback_start() -> (r: ReadbackPhase)
    ensures
        r == ReadbackPhase::Staging,
{
    ReadbackPhase::Staging
}

/// Advances the readback protocol by one reported event.
pub fn readback_step(p: ReadbackPhase, e: ReadbackEvent) -> (r: (ReadbackPhase, ReadbackAction))
    ensures
        r == readback_next(p, e),
{
    match p {
        ReadbackPhase::Staging => match e {
            ReadbackEvent::StagingReady => (ReadbackPhase::Mapping, ReadbackAction::MapStaging),
            _ => (ReadbackPhase::Failed(CaptureError::TextureCopy), ReadbackAction::Fail(CaptureError::TextureCopy)),
        },
        ReadbackPhase::Mapping => match e {
            ReadbackEvent::MapSucceeded => (ReadbackPhase::Mapped, ReadbackAction::CopyBytes),
            _ => (ReadbackPhase::Failed(CaptureError::TextureMap), ReadbackAction::Fail(CaptureError::TextureMap)),
        },
        ReadbackPhase::Mapped => {
            let copied = e == ReadbackEvent::BytesCopied;
            (ReadbackPhase::Unmapping { copied }, ReadbackAction::Unmap)
        },
        ReadbackPhase::Unmapping { copied } => if copied && e == ReadbackEvent::UnmapDone {
            (ReadbackPhase::Finished, ReadbackAction::ReturnFrame)
        } else {
            (ReadbackPhase::Failed(CaptureError::TextureMap), ReadbackAction::Fail(CaptureError::TextureMap))
        },
        ReadbackPhase::Finished => (ReadbackPhase::Finished, ReadbackAction::ReturnFrame),
        ReadbackPhase::Failed(err) => (ReadbackPhase::Failed(err), ReadbackAction::Fail(err)),
    }
}

/// After a successful map the next step is always the unmap, whether or not
/// the bytes could be copied out; and an unmap is only ever asked for a
/// texture that was mapped.
pub proof fn lemma_unmap_follows_map(e: ReadbackEvent, p: ReadbackPhase, e2: ReadbackEvent)
    ensures
        readback_next(readback_next(ReadbackPhase::Mapping, ReadbackEvent::MapSucceeded).0, e).1
            == ReadbackAction::Unmap,
        readback_next(p, e2).1 == ReadbackAction::Unmap ==> p == ReadbackPhase::Mapped,
{
}

} // verus!
