use explorer::gateway::content_type_for;
use explorer::state::FileExplorerState;
use explorer::AuthScheme;

fn request_for(path: &str) -> Option<String> {
    Some(format!("/shared/{:x}", md5::compute(path.as_bytes())))
}

#[test]
fn public_share_is_served_with_headers() {
    let mut state = FileExplorerState::new();
    let path = String::from("/home/user/photo.jpg");
    state.share_file(path.clone(), AuthScheme::Public).unwrap();
    let plan = state.serve_shared_file(request_for(&path)).unwrap();
    assert_eq!(plan.path, path);
    assert_eq!(plan.content_type, "image/jpeg");
    assert_eq!(
        plan.content_disposition,
        "attachment; filename=\"photo.jpg\""
    );
}

#[test]
fn private_share_is_always_denied() {
    let mut state = FileExplorerState::new();
    let path = String::from("/home/user/secret.txt");
    state.share_file(path.clone(), AuthScheme::Private).unwrap();
    let err = state.serve_shared_file(request_for(&path)).unwrap_err();
    assert_eq!(err, "Access denied: Private file");
    // Still denied on a second attempt and after other shares exist.
    state
        .share_file(String::from("/home/user/open.txt"), AuthScheme::Public)
        .unwrap();
    let err = state.serve_shared_file(request_for(&path)).unwrap_err();
    assert_eq!(err, "Access denied: Private file");
}

#[test]
fn missing_request_path_is_rejected() {
    let state = FileExplorerState::new();
    let err = state.serve_shared_file(None).unwrap_err();
    assert_eq!(err, "No request path provided");
}

#[test]
fn request_outside_shared_route_is_rejected() {
    let mut state = FileExplorerState::new();
    let path = String::from("/home/user/a.txt");
    state.share_file(path, AuthScheme::Public).unwrap();
    let err = state
        .serve_shared_file(Some(String::from("/files/abc")))
        .unwrap_err();
    assert_eq!(err, "Invalid shared file path");
    let err = state
        .serve_shared_file(Some(String::from("/share")))
        .unwrap_err();
    assert_eq!(err, "Invalid shared file path");
}

#[test]
fn bare_shared_route_has_empty_id_and_is_not_found() {
    let mut state = FileExplorerState::new();
    state
        .share_file(String::from("/home/user/a.txt"), AuthScheme::Public)
        .unwrap();
    let err = state
        .serve_shared_file(Some(String::from("/shared/")))
        .unwrap_err();
    assert_eq!(err, "File not found or not shared");
}

#[test]
fn unknown_id_is_not_found() {
    let mut state = FileExplorerState::new();
    state
        .share_file(String::from("/home/user/a.txt"), AuthScheme::Public)
        .unwrap();
    let err = state
        .serve_shared_file(Some(String::from("/shared/0000")))
        .unwrap_err();
    assert_eq!(err, "File not found or not shared");
}

#[test]
fn unshared_path_is_no_longer_served() {
    let mut state = FileExplorerState::new();
    let path = String::from("/home/user/a.txt");
    state.share_file(path.clone(), AuthScheme::Public).unwrap();
    assert!(state.serve_shared_file(request_for(&path)).is_ok());
    state.unshare_file(path.clone()).unwrap();
    let err = state.serve_shared_file(request_for(&path)).unwrap_err();
    assert_eq!(err, "File not found or not shared");
}

#[test]
fn content_type_table() {
    assert_eq!(content_type_for("txt"), "text/plain");
    assert_eq!(content_type_for("html"), "text/html");
    assert_eq!(content_type_for("htm"), "text/html");
    assert_eq!(content_type_for("css"), "text/css");
    assert_eq!(content_type_for("js"), "application/javascript");
    assert_eq!(content_type_for("json"), "application/json");
    assert_eq!(content_type_for("png"), "image/png");
    assert_eq!(content_type_for("jpg"), "image/jpeg");
    assert_eq!(content_type_for("jpeg"), "image/jpeg");
    assert_eq!(content_type_for("gif"), "image/gif");
    assert_eq!(content_type_for("pdf"), "application/pdf");
    assert_eq!(content_type_for("zip"), "application/zip");
    assert_eq!(content_type_for("exe"), "application/octet-stream");
    assert_eq!(content_type_for(""), "application/octet-stream");
}

#[test]
fn dotless_name_is_its_own_extension() {
    // A file literally named "txt" has no dot, so the whole name is
    // taken as the extension and maps to text/plain.
    let mut state = FileExplorerState::new();
    let path = String::from("/home/user/txt");
    state.share_file(path.clone(), AuthScheme::Public).unwrap();
    let plan = state.serve_shared_file(request_for(&path)).unwrap();
    assert_eq!(plan.content_type, "text/plain");
    assert_eq!(plan.content_disposition, "attachment; filename=\"txt\"");
}

#[test]
fn unknown_extension_falls_back_to_octet_stream() {
    let mut state = FileExplorerState::new();
    let path = String::from("/home/user/data.bin");
    state.share_file(path.clone(), AuthScheme::Public).unwrap();
    let plan = state.serve_shared_file(request_for(&path)).unwrap();
    assert_eq!(plan.content_type, "application/octet-stream");
}
