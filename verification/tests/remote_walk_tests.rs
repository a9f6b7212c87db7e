use cloudreve_desktop::remote::{RemoteFile, RemoteFileType};
use cloudreve_desktop::remote_walk::{
    is_symbolic_link, remote_children_in_page, remote_path_to_local_relative_path, union_children,
    RemoteLookup,
};

fn listed(uri: &str, metadata: Option<Vec<(&str, &str)>>) -> RemoteFile {
    RemoteFile {
        file_type: RemoteFileType::File,
        name: uri.rsplit('/').next().unwrap().to_string(),
        path: uri.to_string(),
        size: 1,
        created_at: String::new(),
        updated_at: String::new(),
        primary_entity: None,
        permission: None,
        shared: None,
        metadata: metadata.map(|m| m.into_iter().map(|(k, v)| (k.to_string(), v.to_string())).collect()),
    }
}

#[test]
fn redirect_entries_are_symbolic_links() {
    assert!(is_symbolic_link(&listed("cloudreve://my/a", Some(vec![("sys:shared_redirect", "x")])), "sys:shared_redirect"));
    assert!(!is_symbolic_link(&listed("cloudreve://my/a", Some(vec![("other", "x")])), "sys:shared_redirect"));
    assert!(!is_symbolic_link(&listed("cloudreve://my/a", None), "sys:shared_redirect"));
}

#[test]
fn relative_paths_below_base() {
    assert_eq!(remote_path_to_local_relative_path("/mount/sub/f.txt", "/mount", '/'), Ok("sub/f.txt".to_string()));
    assert_eq!(remote_path_to_local_relative_path("/mount/sub/f.txt", "/mount/", '\\'), Ok("sub\\f.txt".to_string()));
    assert_eq!(
        remote_path_to_local_relative_path("/mountain/f.txt", "/mount", '/'),
        Err("Path is not under remote base".to_string())
    );
    assert_eq!(
        remote_path_to_local_relative_path("/mount", "/mount", '/'),
        Err("Path is not under remote base".to_string())
    );
}

#[test]
fn lookup_matches_targets_across_pages() {
    let targets = vec![
        ("cloudreve://my/a".to_string(), "/s/a".to_string()),
        ("cloudreve://my/b".to_string(), "/s/b".to_string()),
        ("cloudreve://my/c".to_string(), "/s/c".to_string()),
    ];
    let mut lookup = RemoteLookup::new(&targets);
    assert!(!lookup.complete());
    let page1 = vec![listed("cloudreve://my/b", None), listed("cloudreve://my/z", None)];
    assert!(lookup.absorb_page(&page1, true));
    assert_eq!(lookup.missing(), vec!["cloudreve://my/a".to_string(), "cloudreve://my/c".to_string()]);
    let page2 = vec![listed("cloudreve://my/a", None)];
    assert!(!lookup.absorb_page(&page2, false));
    assert_eq!(lookup.missing(), vec!["cloudreve://my/c".to_string()]);
    let found = lookup.into_found();
    let locals: Vec<&str> = found.iter().map(|(p, _)| p.as_str()).collect();
    assert_eq!(locals, vec!["/s/a", "/s/b"]);
    assert_eq!(found[0].1.path, "cloudreve://my/a");
}

#[test]
fn lookup_stops_once_everything_is_found() {
    let targets = vec![("cloudreve://my/a".to_string(), "/s/a".to_string())];
    let mut lookup = RemoteLookup::new(&targets);
    let mut first = listed("cloudreve://my/a", None);
    first.size = 7;
    let mut second = listed("cloudreve://my/a", None);
    second.size = 9;
    assert!(!lookup.absorb_page(&vec![first, second], true));
    assert!(lookup.complete());
    let found = lookup.into_found();
    assert_eq!(found.len(), 1);
    assert_eq!(found[0].1.size, 7);
}

#[test]
fn children_of_walked_directory() {
    let entries = vec![
        (listed("cloudreve://my/mount/d/x.txt", None), Some("/mount/d/x.txt".to_string())),
        (listed("cloudreve://my/mount/d/deep/y", None), Some("/mount/d/deep/y".to_string())),
        (listed("cloudreve://my/mount/d/link", Some(vec![("sys:shared_redirect", "1")])), Some("/mount/d/link".to_string())),
        (listed("bad uri", None), None),
        (listed("cloudreve://other/q", None), Some("/other/q".to_string())),
    ];
    let children = remote_children_in_page("/sync", "/sync/d", "/mount", '/', "sys:shared_redirect", &entries);
    assert_eq!(children.len(), 1);
    assert_eq!(children[0].0, "/sync/d/x.txt");
    assert_eq!(children[0].1.path, "cloudreve://my/mount/d/x.txt");
}

#[test]
fn union_has_each_child_once() {
    let local = vec!["/s/a".to_string(), "/s/b".to_string()];
    let remote = vec!["/s/b".to_string(), "/s/c".to_string(), "/s/c".to_string()];
    let mut all = union_children(&local, &remote);
    all.sort();
    assert_eq!(all, vec!["/s/a".to_string(), "/s/b".to_string(), "/s/c".to_string()]);
}

#[test]
fn duplicate_uri_is_looked_up_for_its_last_target() {
    let targets = vec![
        ("cloudreve://my/a".to_string(), "/s/first".to_string()),
        ("cloudreve://my/b".to_string(), "/s/b".to_string()),
        ("cloudreve://my/a".to_string(), "/s/second".to_string()),
    ];
    let mut lookup = RemoteLookup::new(&targets);
    assert_eq!(lookup.missing(), vec!["cloudreve://my/b".to_string(), "cloudreve://my/a".to_string()]);
    assert!(lookup.absorb_page(&vec![listed("cloudreve://my/a", None)], true));
    assert_eq!(lookup.missing(), vec!["cloudreve://my/b".to_string()]);
    let found = lookup.into_found();
    assert_eq!(found.len(), 1);
    assert_eq!(found[0].0, "/s/second");
}
