use viewer_core::material::{
    get_normal_texture_index, get_occlusion, get_texture_index, occlusion_at, pack_texture_ids,
    texture_id_at, Material, MaterialFactors, TextureSlots, MAX_TEXTURE_COUNT, NO_TEXTURE_ID,
};

fn document(textures: usize, material: &str) -> gltf::Gltf {
    let mut list = String::new();
    for i in 0..textures {
        if i > 0 {
            list.push(',');
        }
        list.push_str("{\"source\":0}");
    }
    let json = format!(
        "{{\"asset\":{{\"version\":\"2.0\"}},\"images\":[{{\"uri\":\"a.png\"}}],\"textures\":[{}],\"materials\":[{},{{}}]}}",
        list, material
    );
    gltf::Gltf::from_slice(json.as_bytes()).unwrap()
}

fn factors() -> MaterialFactors {
    MaterialFactors {
        base_color: [11, 12, 13, 14],
        metallic: 15,
        emissive: [21, 22, 23],
        roughness: 24,
        occlusion_strength: 0x3f000000,
    }
}

const TEXTURED: &str = "{\"pbrMetallicRoughness\":{\"baseColorTexture\":{\"index\":2},\"metallicRoughnessTexture\":{\"index\":1}},\"normalTexture\":{\"index\":0},\"occlusionTexture\":{\"index\":63,\"strength\":0.5},\"emissiveTexture\":{\"index\":64}}";

#[test]
fn texture_ids_by_position() {
    assert_eq!(texture_id_at(None), 255);
    assert_eq!(texture_id_at(Some(0)), 0);
    assert_eq!(texture_id_at(Some(63)), 63);
    assert_eq!(texture_id_at(Some(64)), 255);
    assert_eq!(texture_id_at(Some(255)), 255);
    assert_eq!(texture_id_at(Some(256)), 255);
    assert_eq!(texture_id_at(Some(usize::MAX)), 255);
    assert_eq!(MAX_TEXTURE_COUNT, 64);
    assert_eq!(NO_TEXTURE_ID, 255);
}

#[test]
fn ids_are_packed_from_the_highest_byte_down() {
    assert_eq!(pack_texture_ids(1, 2, 3, 4), 0x01020304);
    assert_eq!(pack_texture_ids(255, 0, 255, 0), 0xff00ff00);
    assert_eq!(pack_texture_ids(0, 0, 0, 0), 0);
    assert_eq!(pack_texture_ids(255, 255, 255, 255), u32::MAX);
    let p = pack_texture_ids(63, 17, 255, 9);
    assert_eq!((p >> 24) & 0xff, 63);
    assert_eq!((p >> 16) & 0xff, 17);
    assert_eq!((p >> 8) & 0xff, 255);
    assert_eq!(p & 0xff, 9);
}

#[test]
fn occlusion_without_a_texture_has_no_strength() {
    assert_eq!(occlusion_at(77, None), (0, 255));
    assert_eq!(occlusion_at(77, Some(5)), (77, 5));
    assert_eq!(occlusion_at(77, Some(64)), (77, 255));
}

#[test]
fn material_from_plain_values() {
    let textures = TextureSlots {
        color: Some(1),
        metallic_roughness: None,
        emissive: Some(70),
        normal: Some(63),
        occlusion: Some(2),
    };
    let m = Material::new(&factors(), &textures);
    assert_eq!(m.color_and_metallic, [11, 12, 13, 15]);
    assert_eq!(m.emissive_and_roughness, [21, 22, 23, 24]);
    assert_eq!(m.occlusion, 0x3f000000);
    assert_eq!(m.color_metallicroughness_emissive_normal_texture_ids, 0x01ffff3f);
    assert_eq!(m.occlusion_texture_id, 2);
}

#[test]
fn texture_references_of_a_document_become_ids() {
    let gltf = document(65, TEXTURED);
    let material = gltf.materials().next().unwrap();
    let pbr = material.pbr_metallic_roughness();
    assert_eq!(get_texture_index(pbr.base_color_texture()), 2);
    assert_eq!(get_texture_index(pbr.metallic_roughness_texture()), 1);
    assert_eq!(get_texture_index(material.emissive_texture()), 255);
    assert_eq!(get_normal_texture_index(material.normal_texture()), 0);
    assert_eq!(get_occlusion(material.occlusion_texture(), 0x3f000000), (0x3f000000, 63));
}

#[test]
fn missing_references_become_the_id_for_no_texture() {
    let gltf = document(1, "{}");
    let material = gltf.materials().next().unwrap();
    let pbr = material.pbr_metallic_roughness();
    assert_eq!(get_texture_index(pbr.base_color_texture()), 255);
    assert_eq!(get_normal_texture_index(material.normal_texture()), 255);
    assert_eq!(get_occlusion(material.occlusion_texture(), 9), (0, 255));
}

#[test]
fn material_of_a_document() {
    let gltf = document(65, TEXTURED);
    let material = gltf.materials().next().unwrap();
    let pbr = material.pbr_metallic_roughness();
    let m = Material::from(
        &factors(),
        pbr.base_color_texture(),
        pbr.metallic_roughness_texture(),
        material.emissive_texture(),
        material.normal_texture(),
        material.occlusion_texture(),
    );
    assert_eq!(m.color_and_metallic, [11, 12, 13, 15]);
    assert_eq!(m.emissive_and_roughness, [21, 22, 23, 24]);
    assert_eq!(m.color_metallicroughness_emissive_normal_texture_ids, 0x0201ff00);
    assert_eq!(m.occlusion, 0x3f000000);
    assert_eq!(m.occlusion_texture_id, 63);

    let bare = gltf.materials().nth(1).unwrap();
    let pbr = bare.pbr_metallic_roughness();
    let m = Material::from(
        &factors(),
        pbr.base_color_texture(),
        pbr.metallic_roughness_texture(),
        bare.emissive_texture(),
        bare.normal_texture(),
        bare.occlusion_texture(),
    );
    assert_eq!(m.color_metallicroughness_emissive_normal_texture_ids, u32::MAX);
    assert_eq!(m.occlusion, 0);
    assert_eq!(m.occlusion_texture_id, 255);
}
