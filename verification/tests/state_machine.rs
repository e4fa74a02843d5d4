use rusty_svg2ico::app::Effect;
use rusty_svg2ico::app::Message;
use rusty_svg2ico::app::SvgToIcoApp;

fn sample_ico(size: u32) -> Vec<u8> {
    let rgba = vec![0xAAu8; (size * size * 4) as usize];
    let image = ico::IconImage::from_rgba_data(size, size, rgba);
    let entry = ico::IconDirEntry::encode(&image).unwrap();
    let mut dir = ico::IconDir::new(ico::ResourceType::Icon);
    dir.add_entry(entry);
    let mut bytes = Vec::new();
    dir.write(&mut bytes).unwrap();
    bytes
}

#[test]
fn generated_icons_cover_the_standard_sizes() {
    let sizes = rusty_svg2ico::app::conversion_sizes();
    assert_eq!(sizes, vec![256u16, 128, 64, 48, 32, 24, 16]);
}

#[test]
fn new_starts_empty() {
    let app = SvgToIcoApp::new(false);
    assert!(app.ico_data.is_none());
    assert!(app.previews.is_empty());
    assert!(!app.is_generated);
    assert!(!app.is_dark);
    assert!(!app.save_available());
}

#[test]
fn new_keeps_theme_flag() {
    let app = SvgToIcoApp::new(true);
    assert!(app.is_dark);
}

#[test]
fn title_names_the_app() {
    let app = SvgToIcoApp::new(false);
    assert_eq!(app.title(), "Rusty SVG2ICO");
}

#[test]
fn select_svg_asks_for_the_picker() {
    let mut app = SvgToIcoApp::new(false);
    let effect = app.update(Message::SelectSvg).unwrap();
    assert!(matches!(effect, Effect::PickSvg));
    assert!(app.ico_data.is_none());
    assert!(app.previews.is_empty());
}

#[test]
fn open_ico_asks_for_the_picker() {
    let mut app = SvgToIcoApp::new(false);
    let effect = app.update(Message::OpenIco).unwrap();
    assert!(matches!(effect, Effect::PickIco));
    assert!(app.ico_data.is_none());
}

#[test]
fn save_without_a_buffer_does_nothing() {
    let mut app = SvgToIcoApp::new(false);
    let effect = app.update(Message::SaveIcon).unwrap();
    assert!(matches!(effect, Effect::Nothing));
}

#[test]
fn save_hands_back_the_loaded_bytes() {
    let bytes = sample_ico(16);
    let mut app = SvgToIcoApp::new(false);
    app.update(Message::IcoLoaded(bytes.clone(), true)).unwrap();
    let effect = app.update(Message::SaveIcon).unwrap();
    match effect {
        Effect::SaveIco(saved) => assert_eq!(saved, bytes),
        _ => panic!("expected a save effect"),
    }
}

#[test]
fn empty_load_is_ignored() {
    let mut app = SvgToIcoApp::new(false);
    let effect = app.update(Message::IcoLoaded(Vec::new(), true)).unwrap();
    assert!(matches!(effect, Effect::Nothing));
    assert!(app.ico_data.is_none());
    assert!(app.previews.is_empty());
    assert!(!app.save_available());
}

#[test]
fn garbage_bytes_are_rejected() {
    let mut app = SvgToIcoApp::new(false);
    let result = app.update(Message::IcoLoaded(vec![1, 2, 3, 4], false));
    assert!(result.is_err());
    assert!(app.ico_data.is_none());
    assert!(app.previews.is_empty());
}

#[test]
fn loading_builds_previews_from_the_buffer() {
    let rgba = vec![0x55u8; 16 * 16 * 4];
    let image = ico::IconImage::from_rgba_data(16, 16, rgba);
    let entry = ico::IconDirEntry::encode(&image).unwrap();
    let expected_data = entry.data().to_vec();
    let mut dir = ico::IconDir::new(ico::ResourceType::Icon);
    dir.add_entry(entry);
    let mut bytes = Vec::new();
    dir.write(&mut bytes).unwrap();

    let mut app = SvgToIcoApp::new(false);
    let effect = app.update(Message::IcoLoaded(bytes.clone(), false)).unwrap();
    assert!(matches!(effect, Effect::Nothing));
    assert_eq!(app.ico_data.as_ref().unwrap(), &bytes);
    assert_eq!(app.previews.len(), 1);
    assert_eq!(app.previews[0].label, "16 x 16");
    assert_eq!(app.previews[0].image_data, expected_data);
}

#[test]
fn save_is_offered_only_for_generated_buffers() {
    let bytes = sample_ico(32);
    let mut app = SvgToIcoApp::new(false);
    app.update(Message::IcoLoaded(bytes.clone(), false)).unwrap();
    assert!(!app.save_available());
    app.update(Message::IcoLoaded(bytes, true)).unwrap();
    assert!(app.save_available());
}

#[test]
fn a_new_buffer_replaces_the_previews() {
    let small = sample_ico(16);
    let large = sample_ico(48);
    let mut app = SvgToIcoApp::new(false);
    app.update(Message::IcoLoaded(small, true)).unwrap();
    assert_eq!(app.previews[0].label, "16 x 16");
    app.update(Message::IcoLoaded(large, false)).unwrap();
    assert_eq!(app.previews.len(), 1);
    assert_eq!(app.previews[0].label, "48 x 48");
    assert!(!app.save_available());
}
