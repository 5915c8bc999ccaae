use bevy_mod_fbx::data::TextureHandle;
use bevy_mod_fbx::material::{
    chain_advance, chain_start, ChainState, MaterialLoader, MaterialObject, SlotBindings,
    TextureSlot, TextureSource,
};
use bevy_mod_fbx::texture::{TextureObject, WrapMode};

fn texture(name: Option<&str>, id: i64) -> TextureObject {
    TextureObject {
        name: name.map(|n| n.to_string()),
        id,
        wrap_mode_u: Some(WrapMode::Repeat),
        wrap_mode_v: Some(WrapMode::Repeat),
        video_clip: None,
    }
}

fn material() -> MaterialObject {
    MaterialObject {
        name: Some("Bark".to_string()),
        id: 40,
        textures: vec![
            TextureSlot { slot: "DiffuseColor".to_string(), texture: texture(Some("Wood"), 1) },
            TextureSlot { slot: "NormalMap".to_string(), texture: texture(None, 2) },
            TextureSlot { slot: "DiffuseColor".to_string(), texture: texture(Some("Other"), 3) },
            TextureSlot { slot: "Bump".to_string(), texture: texture(Some(""), 4) },
        ],
    }
}

fn names(list: &[&str]) -> Vec<String> {
    list.iter().map(|s| s.to_string()).collect()
}

#[test]
fn first_texture_of_a_slot_is_taken() {
    let m = material();
    assert_eq!(m.load_texture("DiffuseColor"), Some(0));
    assert_eq!(m.load_texture("NormalMap"), Some(1));
    assert_eq!(m.load_texture("Bump"), Some(3));
    assert_eq!(m.load_texture("EmissiveColor"), None);
    assert_eq!(m.load_texture("diffusecolor"), None);
}

#[test]
fn missing_slots_are_skipped_silently() {
    let m = material();
    let list = m.connected_textures(&names(&["Bump", "EmissiveColor", "DiffuseColor", "Shininess"]));
    let found: Vec<(&str, usize)> = list.iter().map(|c| (c.slot.as_str(), c.texture)).collect();
    assert_eq!(found, vec![("Bump", 3), ("DiffuseColor", 0)]);
}

#[test]
fn material_without_textures_connects_nothing() {
    let m = MaterialObject { name: None, id: 1, textures: vec![] };
    assert!(m.connected_textures(&names(&["DiffuseColor"])).is_empty());
    assert_eq!(m.load_texture("DiffuseColor"), None);
}

#[test]
fn processed_images_are_bound_before_static_slots() {
    let m = material();
    let loader = MaterialLoader {
        static_load: names(&["NormalMap", "EmissiveColor", "Bump"]),
        dynamic_load: names(&["DiffuseColor"]),
    };
    let list = m.texture_bindings(&names(&["DiffuseColor", "Synth"]), &loader);
    let got: Vec<(&str, &str, TextureSource)> =
        list.iter().map(|b| (b.slot.as_str(), b.label.as_str(), b.source)).collect();
    assert_eq!(
        got,
        vec![
            ("DiffuseColor", "FbxTextureMat@Bark/DiffuseColor", TextureSource::Processed),
            ("Synth", "FbxTextureMat@Bark/Synth", TextureSource::Processed),
            ("NormalMap", "FbxTexture2", TextureSource::Object(1)),
            ("Bump", "FbxTexture4", TextureSource::Object(3)),
        ]
    );
}

#[test]
fn synthesized_labels_use_the_id_of_an_unnamed_material() {
    let mut m = material();
    m.name = None;
    let loader = MaterialLoader { static_load: vec![], dynamic_load: vec![] };
    let list = m.texture_bindings(&names(&["DiffuseColor"]), &loader);
    assert_eq!(list.len(), 1);
    assert_eq!(list[0].label, "FbxTextureMat40/DiffuseColor");
}

#[test]
fn two_slots_with_one_texture_share_its_label() {
    let m = MaterialObject {
        name: None,
        id: 9,
        textures: vec![
            TextureSlot { slot: "A".to_string(), texture: texture(Some("Wood"), 1) },
            TextureSlot { slot: "B".to_string(), texture: texture(Some("Wood"), 1) },
        ],
    };
    let loader = MaterialLoader { static_load: names(&["A", "B"]), dynamic_load: vec![] };
    let list = m.texture_bindings(&vec![], &loader);
    assert_eq!(list.len(), 2);
    assert_eq!(list[0].label, "FbxTexture@Wood");
    assert_eq!(list[1].label, "FbxTexture@Wood");
}

#[test]
fn chain_stops_at_the_first_loader_that_builds() {
    let mut state = chain_start(3);
    assert_eq!(state, ChainState::Try(0));
    state = chain_advance(state, 3, false);
    assert_eq!(state, ChainState::Try(1));
    state = chain_advance(state, 3, true);
    assert_eq!(state, ChainState::Built(1));
    state = chain_advance(state, 3, false);
    assert_eq!(state, ChainState::Built(1));
}

#[test]
fn chain_is_exhausted_when_every_loader_declines() {
    let mut state = chain_start(2);
    state = chain_advance(state, 2, false);
    assert_eq!(state, ChainState::Try(1));
    state = chain_advance(state, 2, false);
    assert_eq!(state, ChainState::Exhausted);
    state = chain_advance(state, 2, true);
    assert_eq!(state, ChainState::Exhausted);
}

#[test]
fn chain_without_loaders_is_exhausted_at_once() {
    assert_eq!(chain_start(0), ChainState::Exhausted);
}

#[test]
fn chain_with_one_loader() {
    assert_eq!(chain_advance(chain_start(1), 1, true), ChainState::Built(0));
    assert_eq!(chain_advance(chain_start(1), 1, false), ChainState::Exhausted);
    assert_eq!(
        chain_advance(ChainState::Try(usize::MAX), usize::MAX, false),
        ChainState::Exhausted
    );
}

#[test]
fn last_binding_of_a_slot_holds() {
    let mut bindings = SlotBindings::new();
    assert_eq!(bindings.get("A"), None);
    bindings.insert("A".to_string(), TextureHandle(1));
    bindings.insert("B".to_string(), TextureHandle(2));
    bindings.insert("A".to_string(), TextureHandle(3));
    assert_eq!(bindings.get("A"), Some(TextureHandle(3)));
    assert_eq!(bindings.get("B"), Some(TextureHandle(2)));
    assert_eq!(bindings.get("C"), None);
    assert_eq!(bindings.entries.len(), 3);
}
