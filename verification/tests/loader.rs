use viewer::load_models;
use viewer::loader::{get_model, LoadError, MeshSource};
use viewer::wireframe::Mesh;
use viewer::RenderMode;

/// A well-formed mesh of one triangle whose positions carry `tag`.
fn tagged(tag: u32) -> Mesh<u32> {
    Mesh { positions: vec![tag, tag + 1, tag + 2], indices: vec![0, 1, 2] }
}

fn malformed() -> Mesh<u32> {
    Mesh { positions: vec![0, 1], indices: vec![0, 1, 2] }
}

#[test]
fn file_gives_its_one_entry() {
    let models = match load_models(MeshSource::File(Ok(tagged(7)))) {
        Ok(models) => models,
        Err(error) => panic!("{error:?}"),
    };
    assert_eq!(models.len(), 1);
    assert_eq!(models[0].cpu_mesh().positions, vec![7, 8, 9]);
    assert_eq!(models[0].render_mode(), RenderMode::Normal);
    assert_eq!(models[0].wireframe_edges().len(), 2);
    assert_eq!(models[0].wireframe_vertices().len(), 3);
    assert_eq!(models[0].albedo().a, 255);
}

#[test]
fn file_that_does_not_parse_fails_the_load() {
    let result = load_models::<u32>(MeshSource::File(Err("not a mesh".to_string())));
    match result {
        Err(error) => assert_eq!(error, LoadError::Parse("not a mesh".to_string())),
        Ok(_) => panic!("loaded"),
    }
}

#[test]
fn file_with_a_malformed_mesh_fails_the_load() {
    match load_models(MeshSource::File(Ok(malformed()))) {
        Err(error) => assert_eq!(error, LoadError::Malformed),
        Ok(_) => panic!("loaded"),
    }
}

#[test]
fn directory_that_cannot_be_listed_fails_the_load() {
    let result = load_models::<u32>(MeshSource::Directory(Err("denied".to_string())));
    match result {
        Err(error) => assert_eq!(error, LoadError::Enumeration("denied".to_string())),
        Ok(_) => panic!("loaded"),
    }
}

#[test]
fn directory_skips_the_files_that_fail() {
    let files = vec![
        Ok(tagged(10)),
        Err("broken".to_string()),
        Ok(tagged(20)),
        Ok(malformed()),
        Ok(tagged(30)),
    ];
    let models = match load_models(MeshSource::Directory(Ok(files))) {
        Ok(models) => models,
        Err(error) => panic!("{error:?}"),
    };
    assert_eq!(models.len(), 5 - 2);
    let loaded: Vec<u32> = models.iter().map(|entry| entry.cpu_mesh().positions[0]).collect();
    assert_eq!(loaded, vec![10, 20, 30]);
}

#[test]
fn directory_of_good_files_gives_an_entry_per_file() {
    let files: Vec<Result<Mesh<u32>, String>> = (0..6).map(|tag| Ok(tagged(tag))).collect();
    match load_models(MeshSource::Directory(Ok(files))) {
        Ok(models) => assert_eq!(models.len(), 6),
        Err(error) => panic!("{error:?}"),
    }
}

#[test]
fn directory_of_bad_files_gives_no_entry_and_does_not_fail() {
    let files: Vec<Result<Mesh<u32>, String>> =
        vec![Err("a".to_string()), Ok(malformed()), Err("b".to_string())];
    match load_models(MeshSource::Directory(Ok(files))) {
        Ok(models) => assert!(models.is_empty()),
        Err(error) => panic!("{error:?}"),
    }
}

#[test]
fn empty_directory_gives_no_entry() {
    match load_models::<u32>(MeshSource::Directory(Ok(vec![]))) {
        Ok(models) => assert!(models.is_empty()),
        Err(error) => panic!("{error:?}"),
    }
}

#[test]
fn one_file_on_its_own_builds_its_entry() {
    match get_model(Ok(tagged(3))) {
        Ok(entry) => assert_eq!(entry.cpu_mesh().positions, vec![3, 4, 5]),
        Err(error) => panic!("{error:?}"),
    }
}

#[test]
fn one_file_on_its_own_hands_on_the_parsers_message() {
    match get_model::<u32>(Err("truncated".to_string())) {
        Err(error) => assert_eq!(error, LoadError::Parse("truncated".to_string())),
        Ok(_) => panic!("loaded"),
    }
}

#[test]
fn one_file_on_its_own_refuses_a_malformed_mesh() {
    match get_model(Ok(malformed())) {
        Err(error) => assert_eq!(error, LoadError::Malformed),
        Ok(_) => panic!("loaded"),
    }
}
