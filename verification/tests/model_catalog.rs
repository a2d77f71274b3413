use fluid_voice_windows::model_catalog::{catalog, CacheClearTarget, ModelCatalog, ModelCatalogError};

#[test]
fn catalog_has_default_model() {
    let model = catalog()
        .into_iter()
        .find(|model| model.id == "whisper-base.en")
        .unwrap();

    assert_eq!(model.file_name, "ggml-base.en.bin");
}

#[test]
fn status_reports_missing_file() {
    let catalog = ModelCatalog::new("fluidvoice-models-test");

    let status = catalog.status("whisper-base.en", 0).unwrap();

    assert!(!status.is_downloaded);
    assert_eq!(status.bytes_on_disk, 0);
}

#[test]
fn status_of_present_file_is_downloaded() {
    let catalog = ModelCatalog::new("data");
    let status = catalog.status("whisper-small.en", 466).unwrap();
    assert!(status.is_downloaded);
    assert_eq!(status.model.size_mb, 466);
    assert!(status.path.ends_with("ggml-small.en.bin"));
    assert!(catalog.model_dir().ends_with("models"));
}

#[test]
fn unknown_model_is_refused() {
    let catalog = ModelCatalog::new("data");
    match catalog.status("whisper-huge", 1) {
        Err(e) => {
            assert!(matches!(&e, ModelCatalogError::UnknownModel(id) if id == "whisper-huge"));
            assert_eq!(e.message(), "unknown model id: whisper-huge");
        }
        Ok(_) => panic!("unknown model accepted"),
    }
    assert!(catalog.model_path("nope").is_err());
}

#[test]
fn list_pairs_models_with_sizes() {
    let catalog = ModelCatalog::new("data");
    let list = catalog.list(&vec![10, 0]);
    assert_eq!(list.len(), 3);
    assert!(list[0].is_downloaded);
    assert_eq!(list[0].bytes_on_disk, 10);
    assert!(!list[1].is_downloaded);
    assert!(!list[2].is_downloaded);
    assert_eq!(list[2].model.id, "whisper-base");
}

#[test]
fn clearing_targets_file_or_directory() {
    let catalog = ModelCatalog::new("data");
    match catalog.clear_cache_target(Some("whisper-base".to_string())).unwrap() {
        CacheClearTarget::File(p) => assert!(p.ends_with("ggml-base.bin")),
        other => panic!("unexpected target {:?}", other),
    }
    match catalog.clear_cache_target(None).unwrap() {
        CacheClearTarget::Directory(d) => assert_eq!(d, catalog.model_dir()),
        other => panic!("unexpected target {:?}", other),
    }
}
