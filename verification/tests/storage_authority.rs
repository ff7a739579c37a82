use rt_engine::storage_authority::{
    nearest_existing, ConfiguredRoot, ServerStorageRoots, StorageAuthorityError,
};
use rt_engine::storage_path::StoragePath;

fn path(text: &str) -> StoragePath {
    StoragePath {
        absolute: text.starts_with('/'),
        components: text
            .split('/')
            .filter(|c| !c.is_empty() && *c != ".")
            .map(|c| c.as_bytes().to_vec())
            .collect(),
        text: text.to_owned(),
    }
}

fn root(configured: &str, canonical: &str) -> ConfiguredRoot {
    ConfiguredRoot { path: configured.to_owned(), canonical: Ok(path(canonical)) }
}

fn below_data() -> ServerStorageRoots {
    ServerStorageRoots::from_configured_paths(vec![root("/data", "/data")]).unwrap()
}

#[test]
fn configured_roots_are_canonicalized_and_deduped() {
    let roots = ServerStorageRoots::from_configured_paths(vec![
        root("/link", "/data"),
        root("/link/.", "/data"),
    ])
    .unwrap();
    assert_eq!(roots.roots().len(), 1);
    assert!(roots.roots()[0].same_as(&path("/data")));
    assert_eq!(roots.into_roots()[0].text, "/data");
}

#[test]
fn empty_roots_are_rejected() {
    let refused = ServerStorageRoots::from_configured_paths(Vec::new()).err().unwrap();
    assert!(matches!(refused, StorageAuthorityError::NoConfiguredRoots));
    assert_eq!(
        refused.to_text(),
        "no configured storage roots are available for execution"
    );
}

#[test]
fn missing_roots_are_rejected() {
    let refused = ServerStorageRoots::from_configured_paths(vec![ConfiguredRoot {
        path: "/missing".to_owned(),
        canonical: Err("No such file or directory".to_owned()),
    }])
    .err()
    .unwrap();
    assert!(matches!(refused, StorageAuthorityError::InvalidRoot { .. }));
    assert_eq!(
        refused.to_text(),
        "invalid configured storage root /missing: No such file or directory"
    );
}

#[test]
fn existing_and_missing_descendants_are_authorized() {
    let roots = below_data();
    roots.authorize_path(&path("/data"), &[true], Ok(path("/data"))).unwrap();
    roots
        .authorize_path(
            &path("/data/new/nested/content"),
            &[false, false, false, true],
            Ok(path("/data")),
        )
        .unwrap();
}

#[test]
fn relative_parent_and_outside_paths_are_rejected() {
    let roots = below_data();
    assert!(matches!(
        roots.authorize_path(&path("relative"), &[true], Ok(path("/data"))),
        Err(StorageAuthorityError::InvalidPath { .. })
    ));
    assert!(matches!(
        roots.authorize_path(&path("/data/child/../escape"), &[true], Ok(path("/data"))),
        Err(StorageAuthorityError::InvalidPath { .. })
    ));
    assert!(matches!(
        roots.authorize_path(&path("/elsewhere"), &[true], Ok(path("/elsewhere"))),
        Err(StorageAuthorityError::OutsideRoots { .. })
    ));
}

#[test]
fn symlinked_existing_path_is_checked_by_canonical_target() {
    let refused = below_data()
        .authorize_path(&path("/data/link/payload.bin"), &[false, true], Ok(path("/outside")))
        .unwrap_err();
    assert_eq!(
        refused.to_text(),
        "storage path /data/link/payload.bin resolves outside configured storage roots (ancestor /outside)"
    );
}

#[test]
fn a_path_without_an_existing_ancestor_is_rejected() {
    let roots = below_data();
    let refused =
        roots.authorize_path(&path("/gone/file"), &[false, false], Ok(path("/data"))).unwrap_err();
    assert_eq!(
        refused.to_text(),
        "invalid storage path /gone/file: path has no existing ancestor"
    );
    let refused = roots
        .authorize_path(&path("/data/file"), &[false, true], Err("denied".to_owned()))
        .unwrap_err();
    assert_eq!(
        refused.to_text(),
        "invalid storage path /data/file: canonicalizing existing ancestor: denied"
    );
}

#[test]
fn coverage_extends_downwards_and_not_sideways() {
    let roots = below_data();
    assert!(roots.covers_path(&path("/data/a/b")));
    assert!(!roots.covers_path(&path("/database")));
    assert!(!roots.covers_path(&path("/")));
    assert_eq!(nearest_existing(&[false, true, true]), Some(1));
    assert_eq!(nearest_existing(&[false]), None);
}
