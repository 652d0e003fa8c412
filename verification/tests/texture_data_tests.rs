use entity_renderer::SCALE;
use entity_renderer::texture_data::TextureData;

#[test]
fn new_keeps_all_three_fields() {
    let t = TextureData::new(3 * SCALE, 256, 128);
    assert_eq!(t.get_buffer(), 3 * SCALE);
    assert_eq!(t.get_width(), 256);
    assert_eq!(t.get_height(), 128);
}

#[test]
fn no_consistency_is_enforced_between_buffer_and_dimensions() {
    let t = TextureData::new(0, 0, 0);
    assert_eq!(t.get_buffer(), 0);
    assert_eq!(t.get_width(), 0);
    assert_eq!(t.get_height(), 0);
}
