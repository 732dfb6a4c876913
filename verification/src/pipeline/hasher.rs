//! Image decoding and perceptual hashing.
//!
//! The decoder is the `image` crate's; the hash is `image_hasher`'s
//! double-gradient hash over a 16 × 16 grid with DCT preprocessing (a
//! DCT-based pHash), encoded as base64.
use vstd::prelude::*;

use crate::error::{PipelineError, PipelineErrorView};
use crate::pipeline::base64::{base64_encode, base64_len, encode_base64, lemma_base64_len};
use image::{DynamicImage, ImageError};
use image_hasher::{HashAlg, HasherConfig};

verus! {

#[verifier::external_type_specification]
#[verifier::external_body]
pub struct ExDynamicImage(DynamicImage);

#[verifier::external_type_specification]
#[verifier::external_body]
pub struct ExImageError(ImageError);

/// Hash grid width of the service's perceptual hash.
pub const HASH_WIDTH: u32 = 16;

/// Hash grid height of the service's perceptual hash.
pub const HASH_HEIGHT: u32 = 16;

/// `image::load_from_memory`: decodes an image, guessing its format from
/// its contents. Nothing is stated of the outcome: which formats are
/// recognised also depends on decoding hooks that any code in the process
/// may register with the `image` crate.
#[verifier::external_body]
fn load_from_memory(bytes: &[u8]) -> Result<DynamicImage, ImageError> {
    image::load_from_memory(bytes)
}

/// The message of a decoding error (its `Display` text). Nothing is stated
/// of the text.
#[verifier::external_body]
fn image_error_message(e: &ImageError) -> String {
    e.to_string()
}

/// Decodes the downloaded bytes into an image; a decoding failure becomes
/// [`PipelineError::ImageDecode`] with the decoder's message.
pub fn decode_image(bytes: &[u8]) -> (r: Result<DynamicImage, PipelineError>)
    ensures
        r matches Err(e) ==> e@ is ImageDecode,
{
    match load_from_memory(bytes) {
        Ok(img) => Ok(img),
        Err(e) => Err(PipelineError::ImageDecode(image_error_message(&e))),
    }
}

/// A hash grid for which `image_hasher` computes its sizes without
/// overflow: the grid, each side rounded up to even, multiplied in `u32`.
pub open spec fn grid_fits(grid_width: u32, grid_height: u32) -> bool {
    (grid_width + 1) * (grid_height + 1) <= u32::MAX
}

/// The number of bits of a double-gradient hash over the given grid. Each
/// side is rounded up to even; the hashed values form a `cols × rows`
/// grid with `cols = width / 2 + 1` and `rows = height / 2 + 1` (with DCT
/// preprocessing, the low-frequency corner of that size of the transform of
/// the image resized to twice that), and each pair of neighbours in a row,
/// then in a column, gives one bit.
pub open spec fn hash_bit_len(grid_width: u32, grid_height: u32) -> int {
    let cols = (grid_width + grid_width % 2) / 2 + 1;
    let rows = (grid_height + grid_height % 2) / 2 + 1;
    rows * (cols - 1) + cols * (rows - 1)
}

/// The number of bytes of a double-gradient hash: its bits, eight to a byte.
pub open spec fn hash_byte_len(grid_width: u32, grid_height: u32) -> nat {
    ((hash_bit_len(grid_width, grid_height) + 7) / 8) as nat
}

/// `Hasher::hash_image` of a hasher configured by `HasherConfig::new()`
/// with `HashAlg::DoubleGradient`, `preproc_dct()` and
/// `hash_size(grid_width, grid_height)`; the hash is taken by
/// `ImageHash::as_bytes`. Claimed: there are [`hash_byte_len`] bytes.
/// Nothing is stated of which bytes: the resize evaluates `f32::sin`,
/// whose precision std leaves unspecified, and the DCT runs through an FFT
/// library that chooses its code by the CPU features found at run time.
/// `grid_fits` keeps `to_hasher`'s size product and rounding within `u32`.
#[verifier::external_body]
fn dct_hash_bytes(grid_width: u32, grid_height: u32, img: &DynamicImage) -> (r: Vec<u8>)
    requires
        grid_fits(grid_width, grid_height),
    ensures
        r@.len() == hash_byte_len(grid_width, grid_height),
{
    let config = HasherConfig::new().hash_alg(HashAlg::DoubleGradient).preproc_dct();
    let hasher = config.hash_size(grid_width, grid_height).to_hasher();
    hasher.hash_image(img).as_bytes().to_vec()
}

/// The length of every hash text of a hasher with the given grid.
pub open spec fn hash_text_len(grid: (u32, u32)) -> nat {
    base64_len(hash_byte_len(grid.0, grid.1))
}

/// `text` is a hash of a hasher with the given grid: the unpadded base64
/// encoding of hash bytes of the size that the grid gives.
pub open spec fn is_hash_text(grid: (u32, u32), text: Seq<char>) -> bool {
    exists|bytes: Seq<u8>|
        bytes.len() == hash_byte_len(grid.0, grid.1) && text == #[trigger] base64_encode(bytes)
}

/// Perceptual hasher using DCT-based pHash.
///
/// It produces a compact base64 string that can be compared with Hamming
/// distance for near-duplicate detection: every hash of one hasher has the
/// same size.
pub struct PerceptualHasher {
    grid_width: u32,
    grid_height: u32,
}

impl PerceptualHasher {
    /// The grid is one that `image_hasher` can size.
    #[verifier::type_invariant]
    spec fn sizes_fit(self) -> bool {
        grid_fits(self.grid_width, self.grid_height)
    }

    /// The hash grid (width, height) of the hasher.
    pub closed spec fn grid(&self) -> (u32, u32) {
        (self.grid_width, self.grid_height)
    }

    /// The hasher of the service: a 16 × 16 grid.
    pub fn new() -> (r: Self)
        ensures
            r.grid() == (HASH_WIDTH, HASH_HEIGHT),
    {
        PerceptualHasher { grid_width: HASH_WIDTH, grid_height: HASH_HEIGHT }
    }

    /// Computes the perceptual hash of an image and returns it as unpadded
    /// standard base64.
    pub fn hash(&self, img: &DynamicImage) -> (r: String)
        ensures
            is_hash_text(self.grid(), r@),
            r@.len() == hash_text_len(self.grid()),
    {
        proof {
            use_type_invariant(self);
        }
        let bytes = dct_hash_bytes(self.grid_width, self.grid_height, img);
        proof {
            lemma_base64_len(bytes@);
        }
        let text = encode_base64(bytes.as_slice());
        proof {
            assert(bytes@.len() == hash_byte_len(self.grid_width, self.grid_height)
                && text@ == base64_encode(bytes@));
        }
        text
    }
}

/// Every hash of the service's hasher has the same size, whatever the
/// image: 144 bits in 18 bytes, 24 base64 characters, so that any two can
/// be compared bit by bit.
pub proof fn lemma_service_hash_size()
    ensures
        hash_bit_len(HASH_WIDTH, HASH_HEIGHT) == 144,
        hash_byte_len(HASH_WIDTH, HASH_HEIGHT) == 18,
        hash_text_len((HASH_WIDTH, HASH_HEIGHT)) == 24,
{
    assert(HASH_WIDTH % 2 == 0 && HASH_HEIGHT % 2 == 0);
    assert(hash_bit_len(HASH_WIDTH, HASH_HEIGHT) == 9 * 8 + 9 * 8);
    assert((144int + 7) / 8 == 18);
    assert(base64_len(18) == 24);
}

} // verus!
