use blog_catalog::catalog::Catalog;
use blog_catalog::error::ApiError;
use blog_catalog::meta::{content_path, BlogMeta, BlogPost, ScanEntry};

fn meta(id: &str, title: &str, ordering: usize) -> BlogMeta {
    BlogMeta {
        id: id.to_string(),
        title: title.to_string(),
        author: "Ann".to_string(),
        description: format!("about {}", id),
        image: None,
        ordering,
    }
}

fn post_dir(dir: &str, m: Option<BlogMeta>) -> ScanEntry {
    ScanEntry { dir: dir.to_string(), is_dir: true, meta: m }
}

#[test]
fn content_path_joins_with_one_separator() {
    assert_eq!(content_path(&"static/blogs/a".to_string()), "static/blogs/a/post.md");
    assert_eq!(content_path(&"static/blogs/a/".to_string()), "static/blogs/a/post.md");
    assert_eq!(content_path(&String::new()), "post.md");
}

#[test]
fn end_to_end_valid_and_missing_metadata() {
    let entries = vec![post_dir("root/a", Some(meta("a", "First", 1))), post_dir("root/b", None)];
    let cat = Catalog::build(&entries);
    assert_eq!(cat.len(), 1);
    assert_eq!(cat.posts().len(), 1);
    assert_eq!(cat.posts()[0].meta.id, "a");
    let m = cat.get_metadata("a").ok().unwrap();
    assert_eq!(m.id, "a");
    assert_eq!(m.title, "First");
    assert_eq!(m.author, "Ann");
    assert_eq!(m.description, "about a");
    assert_eq!(m.image, None);
    assert_eq!(m.ordering, 1);
    assert_eq!(cat.get_metadata("b").err(), Some(ApiError::NotFound));
    assert_eq!(cat.get_content_path("a"), Ok("root/a/post.md".to_string()));
}

#[test]
fn unknown_id_is_not_found() {
    let entries = vec![post_dir("root/a", Some(meta("a", "First", 1)))];
    let cat = Catalog::build(&entries);
    assert_eq!(cat.get_metadata("nope").err(), Some(ApiError::NotFound));
    assert_eq!(cat.get_content_path("nope"), Err(ApiError::NotFound));
    assert!(cat.get("nope").is_none());
}

#[test]
fn bad_entry_is_skipped_and_scan_goes_on() {
    let entries = vec![
        post_dir("root/a", Some(meta("a", "A", 1))),
        post_dir("root/broken", None),
        ScanEntry { dir: "root/file.txt".to_string(), is_dir: false, meta: Some(meta("f", "F", 9)) },
        post_dir("root/c", Some(meta("c", "C", 3))),
    ];
    let cat = Catalog::build(&entries);
    assert_eq!(cat.len(), 2);
    assert!(cat.get("a").is_some());
    assert!(cat.get("c").is_some());
    assert!(cat.get("f").is_none());
    assert!(cat.get("broken").is_none());
    assert_eq!(cat.get_content_path("c"), Ok("root/c/post.md".to_string()));
}

#[test]
fn duplicate_id_keeps_last_scanned() {
    let entries = vec![
        post_dir("root/x1", Some(meta("x", "Older", 1))),
        post_dir("root/y", Some(meta("y", "Y", 2))),
        post_dir("root/x2", Some(meta("x", "Newer", 5))),
    ];
    let cat = Catalog::build(&entries);
    assert_eq!(cat.len(), 2);
    let p = cat.get("x").unwrap();
    assert_eq!(p.meta.title, "Newer");
    assert_eq!(p.meta.ordering, 5);
    assert_eq!(p.filepath, "root/x2/post.md");
}

#[test]
fn empty_scan_gives_empty_catalog() {
    let cat = Catalog::build(&Vec::new());
    assert_eq!(cat.len(), 0);
    assert!(cat.posts().is_empty());
    assert_eq!(Catalog::new().len(), 0);
}

#[test]
fn insert_replaces_same_id() {
    let mut cat = Catalog::new();
    cat.insert(BlogPost { filepath: "p/one".to_string(), meta: meta("k", "One", 1) });
    cat.insert(BlogPost { filepath: "p/other".to_string(), meta: meta("j", "J", 2) });
    cat.insert(BlogPost { filepath: "p/two".to_string(), meta: meta("k", "Two", 3) });
    assert_eq!(cat.len(), 2);
    assert_eq!(cat.get_content_path("k"), Ok("p/two".to_string()));
    assert_eq!(cat.get_metadata("k").ok().unwrap().title, "Two");
}

#[test]
fn metadata_with_image_is_kept() {
    let mut m = meta("pic", "Pictured", 4);
    m.image = Some("assets/pic.png".to_string());
    let cat = Catalog::build(&vec![post_dir("r/pic", Some(m))]);
    assert_eq!(cat.get_metadata("pic").ok().unwrap().image, Some("assets/pic.png".to_string()));
}

#[test]
fn error_status_codes() {
    assert_eq!(ApiError::NotFound.status_code(), 404);
    assert_eq!(ApiError::Internal.status_code(), 500);
    assert_eq!(ApiError::FatalConfig.status_code(), 500);
    assert_eq!(ApiError::from_open_failure(true), ApiError::NotFound);
    assert_eq!(ApiError::from_open_failure(false), ApiError::Internal);
}
