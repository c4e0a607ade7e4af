//! The material record that the shaders read, and how texture references
//! are packed into it.

use vstd::prelude::*;

verus! {

/// Number of textures that the shaders can address.
pub const MAX_TEXTURE_COUNT: u32 = 64;

/// The texture id that stands for "no texture".
pub const NO_TEXTURE_ID: u8 = 255;

/// The factors of a material. Each is the bit pattern of a single-precision
/// value, which the library carries and never reads.
#[derive(Clone, Copy, Debug)]
pub struct MaterialFactors {
    pub base_color: [u32; 4],
    pub metallic: u32,
    pub emissive: [u32; 3],
    pub roughness: u32,
    pub occlusion_strength: u32,
}

/// The positions, in the document's texture list, of the textures a material refers to.
#[derive(Clone, Copy, Debug, PartialEq, Eq, Structural)]
pub struct TextureSlots {
    pub color: Option<usize>,
    pub metallic_roughness: Option<usize>,
    pub emissive: Option<usize>,
    pub normal: Option<usize>,
    pub occlusion: Option<usize>,
}

/// A material in the layout that the shaders read.
#[derive(Clone, Copy, Debug)]
pub struct Material {
    pub color_and_metallic: [u32; 4],
    pub emissive_and_roughness: [u32; 4],
    pub occlusion: u32,
    /// The ids of the color, metallic-roughness, emissive and normal
    /// textures, one byte each, from the highest byte down.
    pub color_metallicroughness_emissive_normal_texture_ids: u32,
    pub occlusion_texture_id: u32,
}

/// The id of a texture reference: its position where the shaders can
/// address it, else the id that stands for "no texture".
pub open spec fn texture_id(index: Option<usize>) -> u8 {
    match index {
        Some(i) => if i < MAX_TEXTURE_COUNT {
            i as u8
        } else {
            NO_TEXTURE_ID
        },
        None => NO_TEXTURE_ID,
    }
}

/// Four texture ids in one word, the first in the highest byte.
pub open spec fn packed_texture_ids(color: u8, metallic_roughness: u8, emissive: u8, normal: u8) -> u32 {
    ((color as u32) << 24) | ((metallic_roughness as u32) << 16) | ((emissive as u32) << 8) | (
    normal as u32)
}

/// The material that `Material::new` builds from factors and texture references.
pub open spec fn material_fields(factors: MaterialFactors, textures: TextureSlots) -> (
    Seq<u32>,
    Seq<u32>,
    u32,
    u32,
    u32,
) {
    (
        seq![factors.base_color@[0], factors.base_color@[1], factors.base_color@[2], factors.metallic],
        seq![factors.emissive@[0], factors.emissive@[1], factors.emissive@[2], factors.roughness],
        if textures.occlusion is Some {
            factors.occlusion_strength
        } else {
            0u32
        },
        packed_texture_ids(
            texture_id(textures.color),
            texture_id(textures.metallic_roughness),
            texture_id(textures.emissive),
            texture_id(textures.normal),
        ),
        texture_id(textures.occlusion) as u32,
    )
}

/// The id of the texture at a position of the document's texture list.
pub fn texture_id_at(index: Option<usize>) -> (r: u8)
    ensures
        r == texture_id(index),
        r < MAX_TEXTURE_COUNT || r == NO_TEXTURE_ID,
        index is Some && index->Some_0 < MAX_TEXTURE_COUNT ==> r == index->Some_0,
{
    match index {
        Some(i) => {
            if i < 64 {
                i as u8
            } else {
                NO_TEXTURE_ID
            }
        },
        None => NO_TEXTURE_ID,
    }
}

/// The occlusion strength and texture id of a material: without an
/// occlusion texture the strength is zero.
pub fn occlusion_at(strength: u32, texture: Option<usize>) -> (r: (u32, u32))
    ensures
        r.0 == if texture is Some {
            strength
        } else {
            0u32
        },
        r.1 == texture_id(texture) as u32,
{
    let id: u8 = texture_id_at(texture);
    match texture {
        Some(_) => (strength, id as u32),
        None => (0, id as u32),
    }
}

/// Packs four texture ids into one word, from which each can be read back.
pub fn pack_texture_ids(color: u8, metallic_roughness: u8, emissive: u8, normal: u8) -> (r: u32)
    ensures
        r == packed_texture_ids(color, metallic_roughness, emissive, normal),
        (r >> 24) & 0xff == color,
        (r >> 16) & 0xff == metallic_roughness,
        (r >> 8) & 0xff == emissive,
        r & 0xff == normal,
{
    proof {
        lemma_packed_ids_read_back(color, metallic_roughness, emissive, normal);
    }
    ((color as u32) << 24) | ((metallic_roughness as u32) << 16) | ((emissive as u32) << 8) | (
    normal as u32)
}

/// Each id can be read back from its byte of the packed word.
pub proof fn lemma_packed_ids_read_back(color: u8, metallic_roughness: u8, emissive: u8, normal: u8)
    ensures
        (packed_texture_ids(color, metallic_roughness, emissive, normal) >> 24) & 0xff == color,
        (packed_texture_ids(color, metallic_roughness, emissive, normal) >> 16) & 0xff
            == metallic_roughness,
        (packed_texture_ids(color, metallic_roughness, emissive, normal) >> 8) & 0xff == emissive,
        packed_texture_ids(color, metallic_roughness, emissive, normal) & 0xff == normal,
{
    let c: u32 = color as u32;
    let m: u32 = metallic_roughness as u32;
    let e: u32 = emissive as u32;
    let n: u32 = normal as u32;
    assert({
        let p = (c << 24) | (m << 16) | (e << 8) | n;
        &&& (p >> 24) & 0xff == c
        &&& (p >> 16) & 0xff == m
        &&& (p >> 8) & 0xff == e
        &&& p & 0xff == n
    }) by (bit_vector)
        requires
            c < 256,
            m < 256,
            e < 256,
            n < 256,
    ;
}

/// A reference to a texture, as the `gltf` crate hands it out.
#[verifier::external_type_specification]
#[verifier::external_body]
pub struct ExTextureInfo<'a>(gltf::texture::Info<'a>);

/// A reference to a normal texture, as the `gltf` crate hands it out.
#[verifier::external_type_specification]
#[verifier::external_body]
pub struct ExNormalTexture<'a>(gltf::material::NormalTexture<'a>);

/// A reference to an occlusion texture, as the `gltf` crate hands it out.
#[verifier::external_type_specification]
#[verifier::external_body]
pub struct ExOcclusionTexture<'a>(gltf::material::OcclusionTexture<'a>);

/// Calls `texture::Info::texture` of the `gltf` crate and `Texture::index` on what it gives:
/// the position of the referenced texture in the document. Nothing is claimed of the result.
#[verifier::external_body]
fn info_texture_position(info: &gltf::texture::Info<'_>) -> (r: usize) {
    info.texture().index()
}

/// Calls `NormalTexture::texture` of the `gltf` crate and `Texture::index` on what it gives:
/// the position of the referenced texture in the document. Nothing is claimed of the result.
#[verifier::external_body]
fn normal_texture_position(normal: &gltf::material::NormalTexture<'_>) -> (r: usize) {
    normal.texture().index()
}

/// Calls `OcclusionTexture::texture` of the `gltf` crate and `Texture::index` on what it
/// gives: the position of the referenced texture in the document. Nothing is claimed of the
/// result.
#[verifier::external_body]
fn occlusion_texture_position(occlusion: &gltf::material::OcclusionTexture<'_>) -> (r: usize) {
    occlusion.texture().index()
}

/// The position of the texture that a reference names, where there is a reference.
pub fn texture_position(texture_info: &Option<gltf::texture::Info<'_>>) -> (r: Option<usize>)
    ensures
        r is Some <==> texture_info is Some,
{
    match texture_info {
        Some(info) => Some(info_texture_position(info)),
        None => None,
    }
}

/// The position of the texture that a normal reference names, where there is a reference.
pub fn normal_position(texture_info: &Option<gltf::material::NormalTexture<'_>>) -> (r: Option<
    usize,
>)
    ensures
        r is Some <==> texture_info is Some,
{
    match texture_info {
        Some(normal) => Some(normal_texture_position(normal)),
        None => None,
    }
}

/// The position of the texture that an occlusion reference names, where there is a reference.
pub fn occlusion_position(texture_info: &Option<gltf::material::OcclusionTexture<'_>>) -> (r:
    Option<usize>)
    ensures
        r is Some <==> texture_info is Some,
{
    match texture_info {
        Some(occlusion) => Some(occlusion_texture_position(occlusion)),
        None => None,
    }
}

/// The id of a texture reference: that of its texture's position, and the
/// id for "no texture" without a reference.
pub fn get_texture_index(texture_info: Option<gltf::texture::Info<'_>>) -> (r: u8)
    ensures
        texture_info is None ==> r == NO_TEXTURE_ID,
        texture_info is Some ==> exists|position: usize| r == #[trigger] texture_id(Some(position)),
        r < MAX_TEXTURE_COUNT || r == NO_TEXTURE_ID,
{
    let position = texture_position(&texture_info);
    let id: u8 = texture_id_at(position);
    proof {
        if position is Some {
            assert(id == texture_id(Some(position->Some_0)));
        }
    }
    id
}

/// The id of a normal texture reference: that of its texture's position,
/// and the id for "no texture" without a reference.
pub fn get_normal_texture_index(texture_info: Option<gltf::material::NormalTexture<'_>>) -> (r: u8)
    ensures
        texture_info is None ==> r == NO_TEXTURE_ID,
        texture_info is Some ==> exists|position: usize| r == #[trigger] texture_id(Some(position)),
        r < MAX_TEXTURE_COUNT || r == NO_TEXTURE_ID,
{
    let position = normal_position(&texture_info);
    let id: u8 = texture_id_at(position);
    proof {
        if position is Some {
            assert(id == texture_id(Some(position->Some_0)));
        }
    }
    id
}

/// The occlusion strength and texture id for an occlusion reference whose
/// strength the caller read: without a reference the strength is zero and
/// the id that for "no texture".
pub fn get_occlusion(texture_info: Option<gltf::material::OcclusionTexture<'_>>, strength: u32) -> (r:
    (u32, u32))
    ensures
        texture_info is None ==> r == (0u32, NO_TEXTURE_ID as u32),
        texture_info is Some ==> r.0 == strength && exists|position: usize|
            r.1 == #[trigger] texture_id(Some(position)),
        r.1 < MAX_TEXTURE_COUNT || r.1 == NO_TEXTURE_ID,
{
    let position = occlusion_position(&texture_info);
    let pair = occlusion_at(strength, position);
    proof {
        if position is Some {
            assert(pair.1 == texture_id(Some(position->Some_0)));
        }
    }
    pair
}

impl Material {
    /// The fields of the material, arrays as sequences.
    pub open spec fn fields(&self) -> (Seq<u32>, Seq<u32>, u32, u32, u32) {
        (
            self.color_and_metallic@,
            self.emissive_and_roughness@,
            self.occlusion,
            self.color_metallicroughness_emissive_normal_texture_ids,
            self.occlusion_texture_id,
        )
    }

    /// Lays a material out for the shaders: the metallic factor rides with
    /// the base color, the roughness factor with the emissive color, and the
    /// texture references become packed ids.
    pub fn new(factors: &MaterialFactors, textures: &TextureSlots) -> (r: Material)
        ensures
            r.fields() == material_fields(*factors, *textures),
    {
        let color_and_metallic: [u32; 4] = [
            factors.base_color[0],
            factors.base_color[1],
            factors.base_color[2],
            factors.metallic,
        ];
        let emissive_and_roughness: [u32; 4] = [
            factors.emissive[0],
            factors.emissive[1],
            factors.emissive[2],
            factors.roughness,
        ];
        let ids: u32 = pack_texture_ids(
            texture_id_at(textures.color),
            texture_id_at(textures.metallic_roughness),
            texture_id_at(textures.emissive),
            texture_id_at(textures.normal),
        );
        let (occlusion, occlusion_texture_id) = occlusion_at(
            factors.occlusion_strength,
            textures.occlusion,
        );
        proof {
            assert(color_and_metallic@ =~= material_fields(*factors, *textures).0);
            assert(emissive_and_roughness@ =~= material_fields(*factors, *textures).1);
        }
        Material {
            color_and_metallic,
            emissive_and_roughness,
            occlusion,
            color_metallicroughness_emissive_normal_texture_ids: ids,
            occlusion_texture_id,
        }
    }

    /// Lays out a material from the texture references of a validated glTF
    /// document and the factors that the caller read beside them. Whatever
    /// positions the references name, the result is what `new` builds from
    /// them, with a texture exactly where there is a reference.
    pub fn from(
        factors: &MaterialFactors,
        color: Option<gltf::texture::Info<'_>>,
        metallic_roughness: Option<gltf::texture::Info<'_>>,
        emissive: Option<gltf::texture::Info<'_>>,
        normal: Option<gltf::material::NormalTexture<'_>>,
        occlusion: Option<gltf::material::OcclusionTexture<'_>>,
    ) -> (r: Material)
        ensures
            exists|textures: TextureSlots|
                {
                    &&& #[trigger] material_fields(*factors, textures) == r.fields()
                    &&& textures.color is Some <==> color is Some
                    &&& textures.metallic_roughness is Some <==> metallic_roughness is Some
                    &&& textures.emissive is Some <==> emissive is Some
                    &&& textures.normal is Some <==> normal is Some
                    &&& textures.occlusion is Some <==> occlusion is Some
                },
    {
        let textures = TextureSlots {
            color: texture_position(&color),
            metallic_roughness: texture_position(&metallic_roughness),
            emissive: texture_position(&emissive),
            normal: normal_position(&normal),
            occlusion: occlusion_position(&occlusion),
        };
        Material::new(factors, &textures)
    }
}

} // verus!
