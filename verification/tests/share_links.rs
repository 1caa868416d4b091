use explorer::state::FileExplorerState;
use explorer::AuthScheme;

fn expected_link(path: &str) -> String {
    format!(
        "/explorer:file-explorer:sys/shared/{:x}",
        md5::compute(path.as_bytes())
    )
}

#[test]
fn share_then_lookup_returns_id_link() {
    let mut state = FileExplorerState::new();
    let path = String::from("/home/user/report.pdf");
    let link = state.share_file(path.clone(), AuthScheme::Public).unwrap();
    assert_eq!(link, expected_link(&path));
    let looked_up = state.get_share_link(path).unwrap();
    assert_eq!(looked_up, Some(link));
}

#[test]
fn unshare_then_lookup_returns_none() {
    let mut state = FileExplorerState::new();
    let path = String::from("/home/user/report.pdf");
    state.share_file(path.clone(), AuthScheme::Public).unwrap();
    assert_eq!(state.unshare_file(path.clone()).unwrap(), true);
    assert_eq!(state.get_share_link(path.clone()).unwrap(), None);
    assert_eq!(state.unshare_file(path).unwrap(), false);
}

#[test]
fn lookup_without_share_is_none() {
    let state = FileExplorerState::new();
    assert_eq!(
        state.get_share_link(String::from("/never/shared")).unwrap(),
        None
    );
}

#[test]
fn resharing_keeps_the_link_stable() {
    let mut state = FileExplorerState::new();
    let path = String::from("/home/user/a.txt");
    let first = state.share_file(path.clone(), AuthScheme::Public).unwrap();
    let second = state.share_file(path.clone(), AuthScheme::Private).unwrap();
    assert_eq!(first, second);
    assert_eq!(state.get_share_link(path).unwrap(), Some(second));
}

#[test]
fn private_share_still_has_a_link() {
    // The policy gates serving, not link lookup.
    let mut state = FileExplorerState::new();
    let path = String::from("/home/user/secret.txt");
    state.share_file(path.clone(), AuthScheme::Private).unwrap();
    assert_eq!(
        state.get_share_link(path.clone()).unwrap(),
        Some(expected_link(&path))
    );
}

#[test]
fn share_ids_are_deterministic_and_distinct() {
    let corpus = [
        "/home/a.txt",
        "/home/b.txt",
        "/home/dir/a.txt",
        "/other/a.txt",
        "/home/a.TXT",
        "/home/a.txt ",
    ];
    let mut state = FileExplorerState::new();
    let mut links = Vec::new();
    for p in corpus {
        let link = state.share_file(String::from(p), AuthScheme::Public).unwrap();
        assert_eq!(link, expected_link(p));
        links.push(link);
    }
    for i in 0..links.len() {
        for j in 0..links.len() {
            if i != j {
                assert_ne!(links[i], links[j]);
            }
        }
    }
    let again = state
        .share_file(String::from("/home/a.txt"), AuthScheme::Public)
        .unwrap();
    assert_eq!(again, links[0]);
}
