use std::collections::HashSet;
use traymat::text::starts_with;
use traymat::cache::{cache_dir, cache_path, download_url, ResolveAction, ResolveEvent, ResolvePhase, Resolver};
use traymat::descriptor::{CacheError, ImageDescriptor};

fn descriptor(url: &str, date: &str) -> ImageDescriptor {
    ImageDescriptor::new(url.to_string(), date.to_string())
}

/// Drives a resolver against an in-memory disk and a counting transport.
fn resolve_with(
    home: &str,
    d: &ImageDescriptor,
    files: &mut HashSet<String>,
    downloads: &mut u32,
    transport_ok: bool,
) -> Result<String, CacheError> {
    let mut r = Resolver::new(home, d);
    loop {
        match r.pending() {
            ResolveAction::CreateDir(_) => r.on_event(ResolveEvent::DirReady(true)),
            ResolveAction::Probe(p) => r.on_event(ResolveEvent::Probed(files.contains(&p))),
            ResolveAction::Download { url: _, path } => {
                *downloads += 1;
                if transport_ok {
                    files.insert(path);
                    r.on_event(ResolveEvent::Stored(None));
                } else {
                    r.on_event(ResolveEvent::Stored(Some(CacheError::Network)));
                }
            }
            ResolveAction::Finished(outcome) => return outcome,
        }
    }
}

#[test]
fn cache_path_ends_with_date() {
    let dir = cache_dir("/home/ann");
    assert_eq!(dir, "/home/ann/Pictures/Wallpaper");
    let p = cache_path(&dir, "20240101");
    assert_eq!(p, "/home/ann/Pictures/Wallpaper/20240101.jpg");
    assert!(p.ends_with("20240101.jpg"));
}

#[test]
fn resolve_twice_downloads_once() {
    let d = descriptor("/th?id=OHR.Fox_1920x1080.jpg", "20240101");
    let mut files = HashSet::new();
    let mut downloads = 0u32;
    let first = resolve_with("/home/ann", &d, &mut files, &mut downloads, true);
    let second = resolve_with("/home/ann", &d, &mut files, &mut downloads, true);
    assert_eq!(downloads, 1);
    let expected = "/home/ann/Pictures/Wallpaper/20240101.jpg".to_string();
    assert_eq!(first, Ok(expected.clone()));
    assert_eq!(second, Ok(expected));
}

#[test]
fn resolve_hit_makes_no_download() {
    let d = descriptor("/th?id=a.jpg", "20231231");
    let mut files = HashSet::new();
    files.insert("/h/Pictures/Wallpaper/20231231.jpg".to_string());
    let mut downloads = 0u32;
    let r = resolve_with("/h", &d, &mut files, &mut downloads, true);
    assert_eq!(downloads, 0);
    assert_eq!(r, Ok("/h/Pictures/Wallpaper/20231231.jpg".to_string()));
}

#[test]
fn resolve_network_failure_is_reported() {
    let d = descriptor("/th?id=a.jpg", "20240102");
    let mut files = HashSet::new();
    let mut downloads = 0u32;
    let r = resolve_with("/h", &d, &mut files, &mut downloads, false);
    assert_eq!(r, Err(CacheError::Network));
    assert!(files.is_empty());
}

#[test]
fn resolve_directory_failure_is_storage_error() {
    let d = descriptor("/th?id=a.jpg", "20240102");
    let mut r = Resolver::new("/h", &d);
    match r.pending() {
        ResolveAction::CreateDir(dir) => assert_eq!(dir, "/h/Pictures/Wallpaper"),
        other => panic!("unexpected action {:?}", other),
    }
    r.on_event(ResolveEvent::DirReady(false));
    assert_eq!(r.phase(), ResolvePhase::Finished(Some(CacheError::Storage)));
    match r.pending() {
        ResolveAction::Finished(outcome) => assert_eq!(outcome, Err(CacheError::Storage)),
        other => panic!("unexpected action {:?}", other),
    }
}

#[test]
fn resolve_ignores_out_of_turn_events() {
    let d = descriptor("/th?id=a.jpg", "20240102");
    let mut r = Resolver::new("/h", &d);
    r.on_event(ResolveEvent::Probed(true));
    assert_eq!(r.phase(), ResolvePhase::CreatingDir);
    r.on_event(ResolveEvent::DirReady(true));
    r.on_event(ResolveEvent::Probed(false));
    assert_eq!(r.phase(), ResolvePhase::Downloading);
    match r.pending() {
        ResolveAction::Download { url, path } => {
            assert_eq!(url, "https://www.bing.com/th?id=a.jpg");
            assert_eq!(path, "/h/Pictures/Wallpaper/20240102.jpg");
        }
        other => panic!("unexpected action {:?}", other),
    }
}

#[test]
fn download_url_swaps_resolution_token() {
    let u = download_url("/th?id=OHR.Fox_ZH-CN_1920x1080.jpg&rf=LaDigue_1920x1080.jpg");
    assert_eq!(u, "https://www.bing.com/th?id=OHR.Fox_ZH-CN_UHD.jpg&rf=LaDigue_UHD.jpg");
    assert!(u.contains("UHD"));
    assert!(!u.contains("1920x1080"));
}

#[test]
fn download_url_keeps_absolute_address() {
    let u = download_url("https://example.org/a_1920x1080.jpg");
    assert_eq!(u, "https://example.org/a_UHD.jpg");
    let v = download_url("http://example.org/b.jpg");
    assert_eq!(v, "http://example.org/b.jpg");
}

#[test]
fn download_url_without_token() {
    assert_eq!(download_url("/th?id=x.jpg"), "https://www.bing.com/th?id=x.jpg");
    assert_eq!(download_url(""), "https://www.bing.com");
}

#[test]
fn starts_with_cases() {
    assert!(starts_with("https://a", "https://"));
    assert!(starts_with("abc", ""));
    assert!(!starts_with("http", "https://"));
    assert!(!starts_with("/https://", "https://"));
}
