use webbed::paths::resolve_target;
use webbed::resolver::resolve_response;
use webbed::resolver::DirReadOutcome;
use webbed::resolver::TargetProbe;
use webbed::response::ResponseBody;

#[test]
fn test_resolve_target_joins_segments() {
    assert_eq!(resolve_target("/srv/base", "/a/b.txt"), "/srv/base/a/b.txt");
    assert_eq!(resolve_target("/srv/base", "/a//b"), "/srv/base/a//b");
    assert_eq!(resolve_target("/srv/base", "/"), "/srv/base/");
    assert_eq!(resolve_target("/srv/base", ""), "/srv/base");
}

#[test]
fn test_fetch_existing_file() {
    let contents = b"[package]\nname = \"demo\"\n".to_vec();
    let target = resolve_target("/srv/base", "/Cargo.toml");
    assert_eq!(target, "/srv/base/Cargo.toml");
    let response = resolve_response(&target, TargetProbe::NotDirectory(Some(contents.clone())));
    assert_eq!(response.status, 200);
    assert_eq!(response.body, ResponseBody::Bytes(contents));
}

#[test]
fn test_fetch_unexisting_file() {
    let target = resolve_target("/srv/base", "/does_not_exist.txt");
    let response = resolve_response(&target, TargetProbe::NotDirectory(None));
    assert_eq!(response.status, 404);
    assert_eq!(response.content_type, None);
    assert_eq!(response.body, ResponseBody::Text(String::from("Not Found")));
}

#[test]
fn test_html_file_content_type() {
    let response = resolve_response(
        "/srv/base/page.html",
        TargetProbe::NotDirectory(Some(b"<html></html>".to_vec())),
    );
    assert_eq!(response.status, 200);
    assert_eq!(response.content_type.as_deref(), Some("text/html"));
}

#[test]
fn test_asset_image_content_type() {
    let target = resolve_target("/srv/base", "/assets/logo.png");
    assert_eq!(target, "/srv/base/assets/logo.png");
    let png = vec![0x89u8, 0x50, 0x4e, 0x47, 0x0d, 0x0a, 0x1a, 0x0a];
    let response = resolve_response(&target, TargetProbe::NotDirectory(Some(png.clone())));
    assert_eq!(response.status, 200);
    assert_eq!(response.content_type.as_deref(), Some("image/png"));
    assert_eq!(response.body, ResponseBody::Bytes(png));
}

#[test]
fn test_unknown_extension_is_octet_stream() {
    let response = resolve_response(
        "/srv/base/data.zzznot",
        TargetProbe::NotDirectory(Some(vec![1u8, 2, 3])),
    );
    assert_eq!(
        response.content_type.as_deref(),
        Some("application/octet-stream")
    );
}

#[test]
fn test_base_directory_serves_index() {
    let index = b"<h1>Welcome</h1>\n".to_vec();
    let target = resolve_target("site", "/");
    assert_eq!(target, "site/");
    let response = resolve_response(&target, TargetProbe::DirWithIndex(Some(index.clone())));
    assert_eq!(response.status, 200);
    assert_eq!(response.content_type.as_deref(), Some("text/html"));
    assert_eq!(response.body, ResponseBody::Bytes(index));
}

#[test]
fn test_directory_index_same_as_direct_request() {
    let index = b"<p>hello</p>".to_vec();
    let base = "/srv/base";
    let via_directory = resolve_response(
        &resolve_target(base, "/docs"),
        TargetProbe::DirWithIndex(Some(index.clone())),
    );
    let direct = resolve_response(
        &resolve_target(base, "/docs/index.html"),
        TargetProbe::NotDirectory(Some(index)),
    );
    assert_eq!(via_directory, direct);
}

#[test]
fn test_directory_with_missing_index_read_is_not_found() {
    let response = resolve_response("/srv/base/docs", TargetProbe::DirWithIndex(None));
    assert_eq!(response.status, 404);
    assert_eq!(response.body, ResponseBody::Text(String::from("Not Found")));
}

#[test]
fn test_directory_listing() {
    let entries = vec![
        String::from("a.txt"),
        String::from("logo.png"),
        String::from("sub"),
    ];
    let response = resolve_response(
        "/srv/base/assets",
        TargetProbe::DirNoIndex(DirReadOutcome::Entries(entries)),
    );
    assert_eq!(response.status, 200);
    assert_eq!(response.content_type.as_deref(), Some("text/plain"));
    assert_eq!(
        response.body,
        ResponseBody::Text(String::from("a.txt\nlogo.png\nsub\n"))
    );
}

#[test]
fn test_empty_directory_listing() {
    let response = resolve_response(
        "/srv/base/empty",
        TargetProbe::DirNoIndex(DirReadOutcome::Entries(vec![])),
    );
    assert_eq!(response.status, 200);
    assert_eq!(response.content_type.as_deref(), Some("text/plain"));
    assert_eq!(response.body, ResponseBody::Text(String::new()));
}

#[test]
fn test_missing_directory_is_not_found() {
    let response = resolve_response(
        "/srv/base/gone",
        TargetProbe::DirNoIndex(DirReadOutcome::NotFound),
    );
    assert_eq!(response.status, 404);
    assert_eq!(response.body, ResponseBody::Text(String::from("Not Found")));
}

#[test]
fn test_unreadable_directory_is_internal_error() {
    let response = resolve_response(
        "/srv/base/locked",
        TargetProbe::DirNoIndex(DirReadOutcome::OtherError),
    );
    assert_eq!(response.status, 500);
    assert_eq!(response.content_type, None);
    assert_eq!(
        response.body,
        ResponseBody::Text(String::from("Internal Server Error"))
    );
}

#[test]
fn test_identical_requests_identical_responses() {
    let make = || {
        let target = resolve_target("/srv/base", "/assets");
        let entries = vec![String::from("one.css"), String::from("two.js")];
        resolve_response(&target, TargetProbe::DirNoIndex(DirReadOutcome::Entries(entries)))
    };
    assert_eq!(make(), make());
}
