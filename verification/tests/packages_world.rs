//! Package paths and URLs, the archive decoder, the serialized cache
//! model, and the Document World's resolution order.

use typster::packages::{
    check_download_status, decode_package_archive, package_archive_url, package_dir_path,
};
use typster::world::pick_first_present;
use typster::{get_cache_dir, today, FileIdentity, PackageCache, PackageId, TypstWorld, TypstError};

fn pkg(namespace: &str, name: &str, version: (u32, u32, u32)) -> PackageId {
    PackageId {
        namespace: namespace.to_string(),
        name: name.to_string(),
        major: version.0,
        minor: version.1,
        patch: version.2,
    }
}

#[test]
fn package_paths_and_urls_are_exact() {
    let p = pkg("preview", "cetz", (0, 3, 1));
    assert_eq!(p.version_string(), "0.3.1");
    assert_eq!(
        package_dir_path("/cache", &p),
        "/cache/preview/cetz/0.3.1"
    );
    assert_eq!(
        package_archive_url(&p),
        "https://packages.typst.org/preview/cetz-0.3.1.tar.gz"
    );
}

#[test]
fn cache_dir_hangs_off_the_platform_base() {
    assert_eq!(
        get_cache_dir(Some("/home/u/.cache".to_string())).unwrap(),
        "/home/u/.cache/typst/packages"
    );
    match get_cache_dir(None).unwrap_err() {
        TypstError::IoError(m) => assert_eq!(m, "Failed to determine cache directory"),
        other => panic!("expected an io error, got {:?}", other),
    }
}

#[test]
fn only_success_statuses_grant_the_download() {
    let p = pkg("preview", "cetz", (0, 3, 1));
    assert!(check_download_status(200, &p).is_ok());
    assert!(check_download_status(299, &p).is_ok());
    match check_download_status(404, &p).unwrap_err() {
        TypstError::PackageError(m) => {
            assert_eq!(m, "Failed to download package cetz-0.3.1: HTTP 404")
        }
        other => panic!("expected a package error, got {:?}", other),
    }
}

#[test]
fn archive_decoder_inflates_gzip() {
    // A gzip stream holding the five bytes "hello" in a stored block.
    let gz: Vec<u8> = vec![
        0x1f, 0x8b, 0x08, 0x00, 0x00, 0x00, 0x00, 0x00, 0x00, 0x03, 0x01, 0x05, 0x00, 0xfa, 0xff,
        b'h', b'e', b'l', b'l', b'o', 0x86, 0xa6, 0x10, 0x36, 0x05, 0x00, 0x00, 0x00,
    ];
    assert_eq!(decode_package_archive(&gz).unwrap(), b"hello");
}

#[test]
fn malformed_archive_is_a_package_error() {
    let junk: Vec<u8> = vec![1, 2, 3, 4];
    match decode_package_archive(&junk).unwrap_err() {
        TypstError::PackageError(_) => {}
        other => panic!("expected a package error, got {:?}", other),
    }
}

#[test]
fn second_resolution_downloads_nothing() {
    let mut cache = PackageCache::new("/cache".to_string());
    let p = pkg("preview", "cetz", (0, 3, 1));
    let (fetched_first, dir_first) = cache.resolve(&p);
    let (fetched_second, dir_second) = cache.resolve(&p);
    assert!(fetched_first);
    assert!(!fetched_second);
    assert_eq!(dir_first, "/cache/preview/cetz/0.3.1");
    assert_eq!(dir_first, dir_second);
}

#[test]
fn ten_serialized_resolutions_download_once() {
    let mut cache = PackageCache::new("/cache".to_string());
    let p = pkg("preview", "example", (1, 0, 0));
    let mut downloads = 0;
    let mut dirs = Vec::new();
    for _ in 0..10 {
        let (fetched, dir) = cache.resolve(&p);
        if fetched {
            downloads += 1;
        }
        dirs.push(dir);
    }
    assert_eq!(downloads, 1);
    assert!(dirs.iter().all(|d| d == "/cache/preview/example/1.0.0"));
}

#[test]
fn different_packages_fetch_independently() {
    let mut cache = PackageCache::new("/c".to_string());
    let a = pkg("preview", "a", (1, 0, 0));
    let b = pkg("preview", "b", (1, 0, 0));
    assert!(cache.resolve(&a).0);
    assert!(cache.resolve(&b).0);
    assert!(!cache.resolve(&a).0);
    assert!(!cache.resolve(&b).0);
}

#[test]
fn virtual_paths_resolve_under_a_base() {
    let id = FileIdentity { package: None, vpath: "dir/file.typ".to_string() };
    assert_eq!(id.resolve_against("/root").unwrap(), "/root/dir/file.typ");
}

#[test]
fn parent_segments_cannot_escape_the_base() {
    let id = FileIdentity { package: None, vpath: "../secret".to_string() };
    assert!(id.resolve_against("/root").is_none());
    let id = FileIdentity { package: None, vpath: "a/../b".to_string() };
    assert!(id.resolve_against("/root").is_none());
}

#[test]
fn world_seeds_the_main_source() {
    let variables = vec![("a".to_string(), typster::Value::Int(1))];
    let world = TypstWorld::new(
        "= Doc",
        &vec![],
        &variables,
        vec!["/extra".to_string()],
        "/root".to_string(),
        "/cache".to_string(),
    );
    let main = FileIdentity::main_identity();
    assert_eq!(world.main_id().vpath, "main.typ");
    assert_eq!(world.lookup_source(&main).unwrap(), "#let a = 1\n\n= Doc");
    let other = FileIdentity { package: None, vpath: "other.typ".to_string() };
    assert!(world.lookup_source(&other).is_none());
    assert!(world.lookup_file(&main).is_none());
}

#[test]
fn candidate_dirs_search_extra_roots_before_the_cache() {
    let world = TypstWorld::new(
        "",
        &vec![],
        &vec![],
        vec!["/extra1".to_string(), "/extra2".to_string()],
        "/root".to_string(),
        "/cache".to_string(),
    );
    let p = pkg("preview", "cetz", (0, 3, 1));
    let dirs = world.candidate_package_dirs(&p);
    assert_eq!(
        dirs,
        vec![
            "/extra1/preview/cetz/0.3.1".to_string(),
            "/extra2/preview/cetz/0.3.1".to_string(),
            "/cache/preview/cetz/0.3.1".to_string(),
        ]
    );
}

#[test]
fn first_present_candidate_wins() {
    assert_eq!(pick_first_present(&vec![false, true, true]), Some(1));
    assert_eq!(pick_first_present(&vec![true]), Some(0));
    assert_eq!(pick_first_present(&vec![false, false]), None);
    assert_eq!(pick_first_present(&vec![]), None);
}

#[test]
fn today_yields_a_valid_calendar_date() {
    let date = today(None).expect("the clock reports a representable date");
    let d = date.date.unwrap();
    assert!((1..=12).contains(&d.month));
    assert!((1..=31).contains(&d.day));
    assert!(date.time.is_none());
    assert!(today(Some(0)).is_some());
}

#[test]
fn unrepresentable_offsets_yield_nothing() {
    assert!(today(Some(i64::MAX)).is_none());
}
