use vstd::prelude::*;

use crate::error::SicdError;

verus! {

/// One complex single-precision sample, held as the IEEE-754 bit patterns of
/// its real and imaginary parts. The numeric interpretation of the bits is
/// left to the caller; this core works on the exact bit patterns the buffer
/// carries.
#[derive(Debug, Clone, Copy, PartialEq, Eq, Structural)]
pub struct ImageSample {
    pub re_bits: u32,
    pub im_bits: u32,
}

/// A decoded image segment: an owned, row-major array of complex samples
/// whose dimensions were fixed at decode time.
#[derive(Debug)]
pub struct ImageData {
    /// Row-major sample array of length `n_rows * n_cols`.
    pub array: Vec<ImageSample>,
    pub n_rows: usize,
    pub n_cols: usize,
}

/// The unsigned 32-bit value that four bytes spell in big-endian order.
pub open spec fn be_u32(b0: u8, b1: u8, b2: u8, b3: u8) -> u32 {
    (b0 * 0x100_0000 + b1 * 0x1_0000 + b2 * 0x100 + b3) as u32
}

/// The sample that the eight bytes starting at offset `8 * k` spell: first a
/// big-endian 32-bit real part, then a big-endian 32-bit imaginary part.
pub open spec fn sample_at(bytes: Seq<u8>, k: int) -> ImageSample {
    ImageSample {
        re_bits: be_u32(bytes[8 * k], bytes[8 * k + 1], bytes[8 * k + 2], bytes[8 * k + 3]),
        im_bits: be_u32(bytes[8 * k + 4], bytes[8 * k + 5], bytes[8 * k + 6], bytes[8 * k + 7]),
    }
}

/// Every sample the byte buffer holds, in buffer order.
pub open spec fn decoded_samples(bytes: Seq<u8>) -> Seq<ImageSample> {
    Seq::new((bytes.len() / 8) as nat, |k: int| sample_at(bytes, k))
}

/// What a successful decode of `bytes` under the declared dimensions returns.
pub open spec fn decode_result(
    img: ImageData,
    bytes: Seq<u8>,
    n_rows: usize,
    n_cols: usize,
) -> bool {
    &&& img.n_rows == n_rows
    &&& img.n_cols == n_cols
    &&& img.array@ == decoded_samples(bytes)
}

/// The error a decode reports when the buffer length does not equal
/// `n_rows * n_cols * 8`: the reported expectation saturates at `usize::MAX`
/// when the true product does not fit a `usize`.
pub open spec fn shape_mismatch_error(
    e: SicdError,
    n_rows: usize,
    n_cols: usize,
    actual_len: int,
) -> bool {
    e matches SicdError::ShapeMismatch { expected, actual } && {
        &&& actual == actual_len
        &&& n_rows * n_cols * 8 <= usize::MAX ==> expected == n_rows * n_cols * 8
        &&& n_rows * n_cols * 8 > usize::MAX ==> expected == usize::MAX
    }
}

/// Reads the big-endian 32-bit value at byte offset `at`.
fn read_be_u32(buffer: &[u8], at: usize) -> (r: u32)
    requires
        at + 4 <= buffer@.len(),
    ensures
        r == be_u32(
            buffer@[at as int],
            buffer@[at as int + 1],
            buffer@[at as int + 2],
            buffer@[at as int + 3],
        ),
{
    let b0 = buffer[at];
    let b1 = buffer[at + 1];
    let b2 = buffer[at + 2];
    let b3 = buffer[at + 3];
    (b0 as u32) * 0x100_0000 + (b1 as u32) * 0x1_0000 + (b2 as u32) * 0x100 + (b3 as u32)
}

impl ImageData {
    /// The array holds exactly one sample per declared cell.
    pub open spec fn wf(self) -> bool {
        self.array@.len() == self.n_rows * self.n_cols
    }

    /// Decodes a raw byte buffer as a row-major `n_rows` by `n_cols` array of
    /// complex samples, eight bytes per sample. The whole buffer decodes into
    /// a newly allocated array, or the call fails with `ShapeMismatch` when
    /// the buffer length does not equal `n_rows * n_cols * 8`; nothing is
    /// decoded partially.
    pub fn initialize(buffer: &[u8], n_rows: usize, n_cols: usize) -> (r: Result<
        ImageData,
        SicdError,
    >)
        ensures
            buffer@.len() == n_rows * n_cols * 8 ==> (r matches Ok(img) && decode_result(
                img,
                buffer@,
                n_rows,
                n_cols,
            ) && img.wf()),
            buffer@.len() != n_rows * n_cols * 8 ==> (r matches Err(e) && shape_mismatch_error(
                e,
                n_rows,
                n_cols,
                buffer@.len() as int,
            )),
    {
        let actual = buffer.len();
        let expected: usize = match n_rows.checked_mul(n_cols) {
            Some(p) => match p.checked_mul(8) {
                Some(e) => e,
                None => {
                    return Err(SicdError::ShapeMismatch { expected: usize::MAX, actual });
                },
            },
            None => {
                proof {
                    assert(n_rows * n_cols * 8 > usize::MAX) by (nonlinear_arith)
                        requires n_rows * n_cols > usize::MAX;
                }
                return Err(SicdError::ShapeMismatch { expected: usize::MAX, actual });
            },
        };
        if expected != actual {
            return Err(SicdError::ShapeMismatch { expected, actual });
        }
        let m = n_rows * n_cols;
        let mut samples: Vec<ImageSample> = Vec::new();
        let mut k: usize = 0;
        while k < m
            invariant
                buffer@.len() == n_rows * n_cols * 8,
                m == n_rows * n_cols,
                m * 8 <= usize::MAX,
                k <= m,
                samples@.len() == k,
                forall|j: int| 0 <= j < k ==> samples@[j] == sample_at(buffer@, j),
            decreases m - k,
        {
            let base = 8 * k;
            let re = read_be_u32(buffer, base);
            let im = read_be_u32(buffer, base + 4);
            samples.push(ImageSample { re_bits: re, im_bits: im });
            k += 1;
        }
        proof {
            assert(samples@ =~= decoded_samples(buffer@));
        }
        Ok(ImageData { array: samples, n_rows, n_cols })
    }

    /// The sample at the given row and column of the row-major array.
    pub fn sample(&self, row: usize, col: usize) -> (r: ImageSample)
        requires
            self.wf(),
            row < self.n_rows,
            col < self.n_cols,
        ensures
            r == self.array@[row * self.n_cols + col],
    {
        let n = self.array.len();
        proof {
            assert(row * self.n_cols + col < self.n_rows * self.n_cols) by (nonlinear_arith)
                requires row < self.n_rows, col < self.n_cols;
            assert(row * self.n_cols + col < n);
        }
        self.array[row * self.n_cols + col]
    }
}

/// Law: decoding is deterministic — the decoded image is a function of the
/// byte buffer and the declared dimensions alone, so any two successful
/// decodes of the same input agree in their dimensions and in every cell,
/// however the cells were computed.
pub proof fn lemma_decode_deterministic(
    img1: ImageData,
    img2: ImageData,
    bytes: Seq<u8>,
    n_rows: usize,
    n_cols: usize,
)
    requires
        decode_result(img1, bytes, n_rows, n_cols),
        decode_result(img2, bytes, n_rows, n_cols),
    ensures
        img1.n_rows == img2.n_rows,
        img1.n_cols == img2.n_cols,
        img1.array@ == img2.array@,
{
}

} // verus!
