//! Cubemaps decoded from DDS containers.
//!
//! A DDS file carrying an `A32B32G32R32F` cubemap (six faces, each with its
//! mip chain) is parsed by `ddsfile` and its payload is cut into one upload
//! region per face and mip level, each half the previous level's width and
//! height. The upload shell narrows each region's 32-bit float texels to
//! the texture's 16-bit float format right before writing it. The container
//! checks — right format, cubemap capability flag, enough data for the
//! whole chain — fail with a typed error and leave the GPU context
//! untouched, so a hot-swap that gets a bad file keeps the old cubemap.

use vstd::prelude::*;

use crate::gpu::Gpu;
use crate::texture::TextureFormat;

verus! {

/// Why a DDS payload was refused.
#[derive(Clone, Copy, PartialEq, Eq, Structural, Debug)]
pub enum CubemapError {
    /// The bytes are not a DDS container.
    InvalidData,
    /// The container's pixel format is not `A32B32G32R32F`.
    WrongFormat,
    /// The container does not declare the cubemap capability.
    NotACubemap,
    /// The payload ends before the last face's last mip level.
    TruncatedData,
}

/// What a DDS parse yields: header facts and the raw payload.
pub struct DdsImage {
    pub width: u32,
    pub height: u32,
    pub mip_count: u32,
    pub is_cubemap: bool,
    pub format_rgba32f: bool,
    pub data: Vec<u8>,
}

/// Ghost view of a parse result.
pub struct DdsImageV {
    pub width: u32,
    pub height: u32,
    pub mip_count: u32,
    pub is_cubemap: bool,
    pub format_rgba32f: bool,
    pub data: Seq<u8>,
}

impl View for DdsImage {
    type V = DdsImageV;

    open spec fn view(&self) -> DdsImageV {
        DdsImageV {
            width: self.width,
            height: self.height,
            mip_count: self.mip_count,
            is_cubemap: self.is_cubemap,
            format_rgba32f: self.format_rgba32f,
            data: self.data@,
        }
    }
}

/// What `ddsfile::Dds::read` makes of a byte string: a pure function of
/// the bytes, `None` when they are not a DDS container.
pub uninterp spec fn spec_dds_read(bytes: Seq<u8>) -> Option<DdsImageV>;

/// Parse a DDS container from memory.
///
/// Relies on `ddsfile::Dds::read` and its header accessors
/// (`get_width`, `get_height`, `get_num_mipmap_levels`, `get_d3d_format`,
/// the `CUBEMAP` bit of `header.caps2`): the parse depends on the bytes
/// alone.
#[verifier::external_body]
pub(crate) fn dds_read(bytes: &Vec<u8>) -> (r: Option<DdsImage>)
    ensures
        r matches Some(img) ==> spec_dds_read(bytes@) == Some(img@),
        r is None ==> spec_dds_read(bytes@) is None,
{
    let Ok(img) = ddsfile::Dds::read(bytes.as_slice()) else {
        return None;
    };
    let format_rgba32f = img.get_d3d_format() == Some(ddsfile::D3DFormat::A32B32G32R32F);
    let is_cubemap = img.header.caps2.contains(ddsfile::Caps2::CUBEMAP);
    Some(DdsImage {
        width: img.get_width(),
        height: img.get_height(),
        mip_count: img.get_num_mipmap_levels(),
        is_cubemap,
        format_rgba32f,
        data: img.data,
    })
}

/// Width or height of mip level `mip` for a base extent `base`.
pub open spec fn spec_mip_extent(base: u32, mip: u32) -> u32 {
    if mip < 32 {
        base >> mip
    } else {
        0u32
    }
}

/// Component words (four 32-bit floats per texel) one mip level holds.
pub open spec fn spec_level_words(width: u32, height: u32, mip: u32) -> int {
    4 * (spec_mip_extent(width, mip) as int) * (spec_mip_extent(height, mip) as int)
}

/// Component words preceding mip `m` within one face's chain.
pub open spec fn spec_mips_prefix_words(width: u32, height: u32, m: int) -> int
    decreases m,
{
    if m <= 0 {
        0
    } else {
        spec_mips_prefix_words(width, height, m - 1) + spec_level_words(
            width,
            height,
            (m - 1) as u32,
        )
    }
}

/// Component words preceding face `face`, mip `mip` in the payload: whole
/// faces first, then the mip prefix within the face.
pub open spec fn spec_level_offset_words(
    width: u32,
    height: u32,
    mip_count: u32,
    face: int,
    mip: int,
) -> int {
    face * spec_mips_prefix_words(width, height, mip_count as int) + spec_mips_prefix_words(
        width,
        height,
        mip,
    )
}

/// One upload region: a face's mip level with its extent and its texel
/// bytes, still 32-bit floats as stored in the container.
#[derive(PartialEq, Eq, Debug)]
pub struct CubemapUpload {
    pub face: u32,
    pub mip: u32,
    pub width: u32,
    pub height: u32,
    pub data: Vec<u8>,
}

/// A cube texture, its view, and the upload regions that fill it.
#[derive(PartialEq, Eq, Debug)]
pub struct Cubemap {
    pub format: TextureFormat,
    pub texture: u64,
    pub view: u64,
    pub width: u32,
    pub height: u32,
    pub mip_count: u32,
    pub levels: Vec<CubemapUpload>,
}

/// The region list a well-formed cubemap carries: one entry per face and
/// mip in face-major order, each holding exactly the matching subrange of
/// the container's payload.
/// One region is the `j`-th of the chain and holds exactly its subrange of
/// the payload.
pub open spec fn spec_level_ok(
    lv: CubemapUpload,
    width: u32,
    height: u32,
    mip_count: u32,
    payload: Seq<u8>,
    j: int,
) -> bool {
    &&& (lv.face as int) * (mip_count as int) + lv.mip == j
    &&& lv.face < 6
    &&& lv.mip < mip_count
    &&& lv.width == spec_mip_extent(width, lv.mip)
    &&& lv.height == spec_mip_extent(height, lv.mip)
    &&& lv.data@ == payload.subrange(
        4 * spec_level_offset_words(width, height, mip_count, lv.face as int, lv.mip as int),
        4 * (spec_level_offset_words(width, height, mip_count, lv.face as int, lv.mip as int)
            + spec_level_words(width, height, lv.mip)),
    )
}

pub open spec fn spec_cubemap_levels_ok(
    levels: Seq<CubemapUpload>,
    width: u32,
    height: u32,
    mip_count: u32,
    payload: Seq<u8>,
) -> bool {
    &&& levels.len() == 6 * mip_count
    &&& forall|j: int|
        0 <= j < levels.len() ==> spec_level_ok(#[trigger] levels[j], width, height, mip_count, payload, j)
}

/// The cubemap is exactly the decoded payload: extent, mip count and the
/// 16-bit-float texture format come from the container, and every upload
/// region holds precisely its subrange of the payload.
pub open spec fn spec_cubemap_decodes(c: Cubemap, img: DdsImageV) -> bool {
    &&& c.width == img.width
    &&& c.height == img.height
    &&& c.mip_count == img.mip_count
    &&& c.format == TextureFormat::Rgba16Float
    &&& spec_cubemap_levels_ok(c.levels@, img.width, img.height, img.mip_count, img.data)
}

/// The payload holds every face's whole mip chain.
pub open spec fn spec_cubemap_data_sufficient(img: DdsImageV) -> bool {
    img.data.len() >= 4 * 6 * spec_mips_prefix_words(img.width, img.height, img.mip_count as int)
}

/// Longer mip chains never hold fewer words.
pub proof fn lemma_mips_prefix_monotone(width: u32, height: u32, a: int, b: int)
    requires
        a <= b,
    ensures
        spec_mips_prefix_words(width, height, a) <= spec_mips_prefix_words(width, height, b),
    decreases b - a,
{
    if a < b {
        lemma_mips_prefix_monotone(width, height, a, b - 1);
        let wa = spec_mip_extent(width, (b - 1) as u32) as int;
        let ha = spec_mip_extent(height, (b - 1) as u32) as int;
        assert(4 * wa * ha >= 0) by (nonlinear_arith)
            requires
                wa >= 0,
                ha >= 0,
        ;
    }
}

/// A mip-chain prefix never has a negative word count.
pub proof fn lemma_mips_prefix_nonneg(width: u32, height: u32, m: int)
    ensures
        spec_mips_prefix_words(width, height, m) >= 0,
    decreases m,
{
    if m > 0 {
        lemma_mips_prefix_nonneg(width, height, m - 1);
        let wa = spec_mip_extent(width, (m - 1) as u32) as int;
        let ha = spec_mip_extent(height, (m - 1) as u32) as int;
        assert(4 * wa * ha >= 0) by (nonlinear_arith)
            requires
                wa >= 0,
                ha >= 0,
        ;
    }
}

/// Copy `v[start..end]` into a fresh vector.
pub(crate) fn vec_subrange(v: &Vec<u8>, start: usize, end: usize) -> (out: Vec<u8>)
    requires
        0 <= start <= end <= v@.len(),
    ensures
        out@ == v@.subrange(start as int, end as int),
{
    let mut out: Vec<u8> = Vec::new();
    let mut i: usize = start;
    while i < end
        invariant
            start <= i <= end <= v@.len(),
            out@ == v@.subrange(start as int, i as int),
        decreases end - i,
    {
        out.push(v[i]);
        i = i + 1;
        assert(out@ =~= v@.subrange(start as int, i as int));
    }
    out
}

impl Cubemap {
    /// Decode a DDS cubemap payload: parse the container, demand the
    /// `A32B32G32R32F` format and the cubemap flag, and cut one upload
    /// region per face and mip. A refusal leaves the GPU context exactly
    /// as it was.
    pub fn from_dds(gpu: &mut Gpu, bytes: &Vec<u8>) -> (r: Result<Cubemap, CubemapError>)
        requires
            old(gpu).wf(),
            old(gpu).spec_next_id() + 2 < u64::MAX,
            old(gpu).spec_live_textures() < u64::MAX,
        ensures
            final(gpu).wf(),
            old(gpu).spec_next_id() <= final(gpu).spec_next_id() <= old(gpu).spec_next_id() + 2,
            r is Err ==> *final(gpu) == *old(gpu),
            spec_dds_read(bytes@) is None ==> r == Err::<Cubemap, CubemapError>(
                CubemapError::InvalidData,
            ),
            spec_dds_read(bytes@) matches Some(img) && !img.format_rgba32f ==> r == Err::<
                Cubemap,
                CubemapError,
            >(CubemapError::WrongFormat),
            spec_dds_read(bytes@) matches Some(img) && img.format_rgba32f && !img.is_cubemap ==> r
                == Err::<Cubemap, CubemapError>(CubemapError::NotACubemap),
            spec_dds_read(bytes@) matches Some(img) && img.format_rgba32f && img.is_cubemap
                && !spec_cubemap_data_sufficient(img) ==> r == Err::<Cubemap, CubemapError>(
                CubemapError::TruncatedData,
            ),
            spec_dds_read(bytes@) matches Some(img) && img.format_rgba32f && img.is_cubemap
                && spec_cubemap_data_sufficient(img) ==> r is Ok,
            r matches Ok(c) ==> {
                &&& spec_dds_read(bytes@) matches Some(img) && {
                    &&& img.format_rgba32f
                    &&& img.is_cubemap
                    &&& spec_cubemap_decodes(c, img)
                }
                &&& c.format == TextureFormat::Rgba16Float
                &&& old(gpu).spec_next_id() <= c.texture < final(gpu).spec_next_id()
                &&& old(gpu).spec_next_id() <= c.view < final(gpu).spec_next_id()
                &&& c.texture != c.view
                &&& final(gpu).spec_live_textures() == old(gpu).spec_live_textures() + 1
                &&& final(gpu).alive() == old(gpu).alive().insert(c.texture)
                &&& !old(gpu).alive().contains(c.texture)
            },
    {
        let img = match dds_read(bytes) {
            Some(img) => img,
            None => {
                return Err(CubemapError::InvalidData);
            },
        };
        if !img.format_rgba32f {
            return Err(CubemapError::WrongFormat);
        }
        if !img.is_cubemap {
            return Err(CubemapError::NotACubemap);
        }

        let width = img.width;
        let height = img.height;
        let mip_count = img.mip_count;

        proof {
            lemma_mips_prefix_nonneg(width, height, mip_count as int);
        }
        let mut levels: Vec<CubemapUpload> = Vec::new();
        let mut face: u32 = 0;
        let mut offset: u64 = 0;
        while face < 6
            invariant
                0 <= face <= 6,
                *gpu == *old(gpu),
                old(gpu).wf(),
                spec_dds_read(bytes@) == Some(img@),
                img.format_rgba32f,
                img.is_cubemap,
                width == img.width,
                height == img.height,
                mip_count == img.mip_count,
                offset == (face as int) * spec_mips_prefix_words(width, height, mip_count as int),
                4 * offset <= img.data@.len(),
                levels@.len() == face * mip_count,
                spec_mips_prefix_words(width, height, mip_count as int) >= 0,
                forall|j: int|
                    0 <= j < levels@.len() ==> spec_level_ok(
                        #[trigger] levels@[j],
                        width,
                        height,
                        mip_count,
                        img.data@,
                        j,
                    ),
            decreases 6 - face,
        {
            let mut mip: u32 = 0;
            while mip < mip_count
                invariant
                    0 <= face < 6,
                    0 <= mip <= mip_count,
                    *gpu == *old(gpu),
                    old(gpu).wf(),
                    spec_dds_read(bytes@) == Some(img@),
                    img.format_rgba32f,
                    img.is_cubemap,
                    width == img.width,
                    height == img.height,
                    mip_count == img.mip_count,
                    offset == spec_level_offset_words(width, height, mip_count, face as int, mip as int),
                    4 * offset <= img.data@.len(),
                    spec_mips_prefix_words(width, height, mip as int) >= 0,
                    levels@.len() == face * mip_count + mip,
                    forall|j: int|
                        0 <= j < levels@.len() ==> spec_level_ok(
                            #[trigger] levels@[j],
                            width,
                            height,
                            mip_count,
                            img.data@,
                            j,
                        ),
                decreases mip_count - mip,
            {
                let width_adjusted: u32 = if mip < 32 {
                    width >> mip
                } else {
                    0
                };
                let height_adjusted: u32 = if mip < 32 {
                    height >> mip
                } else {
                    0
                };
                proof {
                    assert(4 * (width_adjusted as int) * (height_adjusted as int) <= 4
                        * 0x1_0000_0000 * 0x1_0000_0000) by (nonlinear_arith)
                        requires
                            0 <= width_adjusted < 0x1_0000_0000,
                            0 <= height_adjusted < 0x1_0000_0000,
                    ;
                }
                let needed: u128 = 4u128 * (width_adjusted as u128) * (height_adjusted as u128);
                let end: u128 = (offset as u128) + needed;
                proof {
                    lemma_mips_prefix_monotone(width, height, mip + 1, mip_count as int);
                    lemma_mips_prefix_nonneg(width, height, mip_count as int);
                    let pm = spec_mips_prefix_words(width, height, mip_count as int);
                    assert((face as int) * pm + pm <= 6 * pm) by (nonlinear_arith)
                        requires
                            0 <= face as int <= 5,
                            pm >= 0,
                    ;
                    assert(spec_mip_extent(width, mip) == width_adjusted);
                    assert(spec_mip_extent(height, mip) == height_adjusted);
                    assert(spec_mips_prefix_words(width, height, mip + 1)
                        == spec_mips_prefix_words(width, height, mip as int) + spec_level_words(
                        width,
                        height,
                        mip,
                    ));
                    assert((end as int) == (face as int) * pm + spec_mips_prefix_words(
                        width,
                        height,
                        mip + 1,
                    ));
                    assert((end as int) <= 6 * pm);
                }
                if end * 4 > (img.data.len() as u128) {
                    proof {
                        let pm = spec_mips_prefix_words(width, height, mip_count as int);
                        assert((end as int) <= 6 * pm);
                        assert(img.data@.len() < 4 * (end as int));
                        assert(img.data@.len() < 24 * pm);
                        assert(img@.width == width && img@.height == height && img@.mip_count
                            == mip_count);
                        assert(!spec_cubemap_data_sufficient(img@));
                    }
                    return Err(CubemapError::TruncatedData);
                }
                let start_b: usize = (4 * offset) as usize;
                let end_b: usize = (4 * end) as usize;
                let level_data = vec_subrange(&img.data, start_b, end_b);
                levels.push(
                    CubemapUpload {
                        face,
                        mip,
                        width: width_adjusted,
                        height: height_adjusted,
                        data: level_data,
                    },
                );
                proof {
                    lemma_mips_prefix_nonneg(width, height, mip + 1);
                }
                offset = end as u64;
                mip = mip + 1;
            }
            proof {
                assert((face as int) * spec_mips_prefix_words(width, height, mip_count as int)
                    + spec_mips_prefix_words(width, height, mip_count as int) == ((face as int) + 1)
                    * spec_mips_prefix_words(width, height, mip_count as int)) by (nonlinear_arith);
                assert((face as int) * (mip_count as int) + (mip_count as int) == ((face as int)
                    + 1) * (mip_count as int)) by (nonlinear_arith);
            }
            face = face + 1;
        }

        proof {
            let p = spec_mips_prefix_words(width, height, mip_count as int);
            assert(offset == 6 * p);
            assert(img.data@.len() >= 24 * p);
            assert(spec_cubemap_data_sufficient(img@));
        }
        let texture = gpu.fresh_texture_id();
        let view = gpu.fresh_id();
        Ok(
            Cubemap {
                format: TextureFormat::Rgba16Float,
                texture,
                view,
                width,
                height,
                mip_count,
                levels,
            },
        )
    }
}

} // verus!
