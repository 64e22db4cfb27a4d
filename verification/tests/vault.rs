use ratelite::asset::{FontBitmap, Shader, Texture2D};
use ratelite::fx::Fx;
use ratelite::vault::{AssetId, Vault};

#[test]
fn add_search_get_round_trip() {
    let mut vault = Vault::new();
    let id = vault.add("logo", Texture2D::new(11, 64, 32));
    assert_eq!(vault.search("logo"), Some(id));
    let texture: Option<&Texture2D> = vault.get(id);
    assert_eq!(texture, Some(&Texture2D::new(11, 64, 32)));
}

#[test]
fn typed_get_misses_on_wrong_type() {
    let mut vault = Vault::new();
    let id = vault.add("logo", Texture2D::new(11, 64, 32));
    let as_shader: Option<&Shader> = vault.get(id);
    assert!(as_shader.is_none());
    let as_texture: Option<&Texture2D> = vault.get(id);
    assert!(as_texture.is_some());
}

#[test]
fn name_unbound_after_remove() {
    // After add("x", v) then remove(handle), search("x") finds nothing.
    let mut vault = Vault::new();
    let id = vault.add("x", Shader::new(3));
    assert!(vault.remove(id));
    assert_eq!(vault.search("x"), None);
    let gone: Option<&Shader> = vault.get(id);
    assert!(gone.is_none());
}

#[test]
fn remove_reports_failure_on_stale_handle() {
    let mut vault = Vault::new();
    let id = vault.add("x", Shader::new(3));
    assert!(vault.remove(id));
    assert!(!vault.remove(id));
    assert!(!vault.remove(AssetId { index: 9, version: 0 }));
}

#[test]
fn rebinding_a_name_keeps_old_entry_reachable_by_handle() {
    let mut vault = Vault::new();
    let first = vault.add("skin", Texture2D::new(1, 2, 2));
    let second = vault.add("skin", Texture2D::new(2, 4, 4));
    assert_eq!(vault.search("skin"), Some(second));
    let old: Option<&Texture2D> = vault.get(first);
    assert_eq!(old, Some(&Texture2D::new(1, 2, 2)));
}

#[test]
fn get_mut_edits_the_stored_asset() {
    let mut vault = Vault::new();
    let id = vault.add("prog", Shader::new(3));
    if let Some(shader) = vault.get_mut::<Shader>(id) {
        shader.program = 8;
    }
    let shader: Option<&Shader> = vault.get(id);
    assert_eq!(shader, Some(&Shader::new(8)));
}

#[test]
fn removing_a_font_releases_its_atlas_texture() {
    let mut vault = Vault::new();
    let texture_id = vault.add("font.texture.dep", Texture2D::new(7, 528, 528));
    let font_id = vault.add(
        "font",
        FontBitmap::new(Vec::new(), texture_id, Fx::from_int(24)),
    );
    assert!(vault.remove(font_id));
    assert_eq!(vault.search("font"), None);
    assert_eq!(vault.search("font.texture.dep"), None);
    let texture: Option<&Texture2D> = vault.get(texture_id);
    assert!(texture.is_none());
}

#[test]
fn removing_a_texture_touches_nothing_else() {
    let mut vault = Vault::new();
    let keep = vault.add("keep", Shader::new(1));
    let toss = vault.add("toss", Texture2D::new(2, 8, 8));
    assert!(vault.remove(toss));
    assert_eq!(vault.search("keep"), Some(keep));
    let shader: Option<&Shader> = vault.get(keep);
    assert!(shader.is_some());
}
