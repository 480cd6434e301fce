use viewer::gui::Config;
use viewer::loader::{LoadError, MeshSource};
use viewer::material::Srgba;
use viewer::wireframe::Mesh;
use viewer::{ModelEntry, RenderMode, Resources};

fn tagged(tag: u32) -> Mesh<u32> {
    Mesh { positions: vec![tag, tag + 1, tag + 2], indices: vec![0, 1, 2] }
}

fn entry(tag: u32) -> ModelEntry<u32> {
    ModelEntry::with_albedo(tagged(tag), Srgba { r: 200, g: 200, b: 200, a: 255 })
}

fn tags(store: &Resources<u32>) -> Vec<u32> {
    (0..store.len())
        .map(|index| match store.get(index) {
            Some(entry) => entry.cpu_mesh().positions[0],
            None => panic!("no entry at {index}"),
        })
        .collect()
}

#[test]
fn new_store_is_empty() {
    let store: Resources<u32> = Resources::new();
    assert_eq!(store.len(), 0);
    assert!(store.get(0).is_none());
}

#[test]
fn entries_are_added_at_the_end_in_their_order() {
    let mut store = Resources::new();
    store.extend(vec![entry(1), entry(2)]);
    store.extend(vec![]);
    store.extend(vec![entry(3)]);
    assert_eq!(store.len(), 3);
    assert_eq!(tags(&store), vec![1, 2, 3]);
    assert!(store.get(3).is_none());
}

#[test]
fn import_adds_what_the_load_gives() {
    let mut store = Resources::new();
    store.extend(vec![entry(1)]);
    let files = vec![Ok(tagged(10)), Err("broken".to_string()), Ok(tagged(20))];
    let added = store.import(MeshSource::Directory(Ok(files)));
    assert_eq!(added, Ok(2));
    assert_eq!(tags(&store), vec![1, 10, 20]);
    assert_eq!(store.import(MeshSource::File(Ok(tagged(30)))), Ok(1));
    assert_eq!(tags(&store), vec![1, 10, 20, 30]);
}

#[test]
fn failed_import_leaves_the_store_as_it_was() {
    let mut store = Resources::new();
    store.extend(vec![entry(1), entry(2)]);
    let failed = store.import(MeshSource::File(Err("bad".to_string())));
    assert_eq!(failed, Err(LoadError::Parse("bad".to_string())));
    let failed = store.import(MeshSource::Directory(Err("gone".to_string())));
    assert_eq!(failed, Err(LoadError::Enumeration("gone".to_string())));
    let bad = Mesh { positions: vec![0u32], indices: vec![0, 0, 1] };
    assert_eq!(store.import(MeshSource::File(Ok(bad))), Err(LoadError::Malformed));
    assert_eq!(tags(&store), vec![1, 2]);
}

#[test]
fn setting_a_mode_changes_that_entry_alone() {
    let mut store = Resources::new();
    store.extend(vec![entry(1), entry(2), entry(3)]);
    assert!(store.set_render_mode(1, RenderMode::Wireframe));
    let modes: Vec<RenderMode> = (0..3)
        .map(|index| match store.get(index) {
            Some(entry) => entry.render_mode(),
            None => panic!("no entry at {index}"),
        })
        .collect();
    assert_eq!(modes, vec![RenderMode::Normal, RenderMode::Wireframe, RenderMode::Normal]);
    assert_eq!(tags(&store), vec![1, 2, 3]);
    assert!(!store.set_render_mode(3, RenderMode::Wireframe));
    assert_eq!(store.len(), 3);
}

#[test]
fn setting_a_colour_changes_that_entry_alone() {
    let mut store = Resources::new();
    store.extend(vec![entry(1), entry(2)]);
    let red = Srgba { r: 255, g: 0, b: 0, a: 128 };
    assert!(store.set_albedo(0, red));
    assert!(!store.set_albedo(2, red));
    let colours: Vec<Srgba> = (0..2)
        .map(|index| match store.get(index) {
            Some(entry) => entry.albedo(),
            None => panic!("no entry at {index}"),
        })
        .collect();
    assert_eq!(colours, vec![red, Srgba { r: 200, g: 200, b: 200, a: 255 }]);
    match store.get(0) {
        Some(entry) => assert_eq!(entry.wireframe_edges().len(), 2),
        None => panic!("no entry"),
    }
}

#[test]
fn viewer_shows_the_selected_entry() {
    let mut store = Resources::new();
    store.extend(vec![entry(1), entry(2)]);
    let mut config = Config::default();
    assert!(store.selected(&config).is_none());
    config.select(1);
    match store.selected(&config) {
        Some(entry) => assert_eq!(entry.cpu_mesh().positions[0], 2),
        None => panic!("nothing selected"),
    }
    config.select(2);
    assert!(store.selected(&config).is_none());
    config.close_viewer();
    assert!(store.selected(&config).is_none());
}
