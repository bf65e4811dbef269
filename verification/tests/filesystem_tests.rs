//! The namespace store: lookup, listing, creation with extension
//! inference, and moves.

use infinitecloud::filesystem::FileSystem;
use infinitecloud::filesystem::FileSystemNode;
use infinitecloud::fs_path::is_absolute;
use infinitecloud::fs_path::root_path;
use infinitecloud::fs_path::FsPath;

fn path(s: &str) -> FsPath {
    FsPath::from_string(s)
}

#[test]
fn test_root_path() {
    assert!(is_absolute(&root_path()));
}

#[test]
fn filesystem_get_node_directory() {
    let filesystem = FileSystem::default();

    let node = filesystem.get_node(&path("/Documents")).unwrap();
    assert!(node.is_directory());
    let node = filesystem.get_node(&root_path()).unwrap();
    assert!(node.is_directory());
}

#[test]
fn filesystem_get_node_file() {
    let mut filesystem = FileSystem::default();
    filesystem
        .create_file(&path("/dir-a/file-a"), 0, 0, Some("text/plain".to_string()), 0)
        .unwrap();

    let node = filesystem.get_node(&path("/dir-a/file-a.txt")).unwrap();
    assert!(node.is_file());
}

#[test]
fn filesystem_get_node_not_found() {
    let filesystem = FileSystem::default();

    let node = filesystem.get_node(&path("/non-existent"));

    assert!(matches!(node, Err(e) if e == "Path not found"));
}

#[test]
fn filesystem_get_node_not_absolute() {
    let filesystem = FileSystem::default();

    let node = filesystem.get_node(&path("Documents"));

    assert!(matches!(node, Err(e) if e == "Path must be absolute"));
}

#[test]
fn filesystem_ls() {
    let mut filesystem = FileSystem::new(0);
    filesystem
        .create_file(&path("/dir-a/file-a"), 0, 0, Some("text/plain".to_string()), 0)
        .unwrap();
    filesystem
        .create_file(&path("/dir-b/file-b"), 0, 0, Some("image/png".to_string()), 0)
        .unwrap();
    filesystem
        .create_file(&path("/dir-b/dir-bb/file-bb"), 0, 0, Some("application/sql".to_string()), 0)
        .unwrap();
    filesystem
        .create_file(&path("/file-c"), 0, 0, Some("application/mp4".to_string()), 0)
        .unwrap();

    assert_eq!(
        filesystem.ls(&path("/")),
        Ok(vec!["dir-a".to_string(), "dir-b".to_string(), "file-c.mp4".to_string()])
    );

    assert_eq!(filesystem.ls(&path("/dir-a")), Ok(vec!["file-a.txt".to_string()]));

    assert_eq!(
        filesystem.ls(&path("/dir-b")),
        Ok(vec!["dir-bb".to_string(), "file-b.png".to_string()])
    );

    assert_eq!(filesystem.ls(&path("/dir-b/dir-ba")), Err("Path not found".to_string()));

    assert_eq!(filesystem.ls(&path("/dir-b/dir-bb")), Ok(vec!["file-bb.sql".to_string()]));

    assert_eq!(filesystem.ls(&path("dir-a")), Err("Path must be absolute".to_string()));

    assert_eq!(filesystem.ls(&path("/non-existent")), Err("Path not found".to_string()));
    assert_eq!(
        filesystem.ls(&path("/non-existent/non-existent")),
        Err("Path not found".to_string())
    );

    assert_eq!(filesystem.ls(&path("/dir-a/file-a.txt")), Err("Not a directory".to_string()));
    assert_eq!(filesystem.ls(&path("/file-c.mp4")), Err("Not a directory".to_string()));
    assert_eq!(filesystem.ls(&path("/file-d.txt")), Err("Path not found".to_string()));
}

#[test]
fn filesystem_mkdir() {
    let mut filesystem = FileSystem::new(0);
    filesystem.mkdir(&path("/dir-a"), 0).unwrap();

    assert!(filesystem.get_node(&path("/dir-a")).unwrap().is_directory());
}

#[test]
fn filesystem_mkdir_creates_every_ancestor() {
    let mut filesystem = FileSystem::new(0);
    filesystem.mkdir(&path("/a/b/c"), 0).unwrap();

    assert!(filesystem.get_node(&path("/a")).unwrap().is_directory());
    assert!(filesystem.get_node(&path("/a/b")).unwrap().is_directory());
    assert!(filesystem.get_node(&path("/a/b/c")).unwrap().is_directory());
}

#[test]
fn filesystem_create_file() {
    let mut filesystem = FileSystem::new(0);
    let final_path = filesystem
        .create_file(&path("/dir-a/file-a"), 0, 0, Some("text/plain".to_string()), 0)
        .unwrap();
    assert_eq!(final_path.to_string(), "/dir-a/file-a.txt");
    assert!(filesystem.get_node(&path("/dir-a/file-a.txt")).unwrap().is_file());

    // an explicit extension is kept verbatim
    let final_path = filesystem
        .create_file(&path("/dir-a/file-b.mp3"), 0, 0, Some("text/plain".to_string()), 0)
        .unwrap();
    assert_eq!(final_path.to_string(), "/dir-a/file-b.mp3");
    assert!(filesystem.get_node(&path("/dir-a/file-b.mp3")).unwrap().is_file());

    // a pseudo content type becomes the extension itself
    let final_path = filesystem
        .create_file(&path("/dir-a/file-c"), 0, 0, Some("tg+video_note".to_string()), 0)
        .unwrap();
    assert_eq!(final_path.to_string(), "/dir-a/file-c.tg+video_note");
    assert!(filesystem.get_node(&path("/dir-a/file-c.tg+video_note")).unwrap().is_file());
}

#[test]
fn filesystem_create_file_png() {
    let mut filesystem = FileSystem::new(0);
    let final_path = filesystem
        .create_file(&path("/d/f"), 0, 0, Some("image/png".to_string()), 0)
        .unwrap();
    assert_eq!(final_path.to_string(), "/d/f.png");
}

#[test]
fn filesystem_create_file_unmapped_mime() {
    let mut filesystem = FileSystem::new(0);
    let final_path = filesystem
        .create_file(&path("/d/f"), 0, 0, Some("notareal/mimetype".to_string()), 0)
        .unwrap();
    assert_eq!(final_path.to_string(), "/d/f");
}

#[test]
fn filesystem_mv_directory() {
    let mut filesystem = FileSystem::new(0);
    filesystem.mkdir(&path("/dir-a/subdir-a"), 0).unwrap();
    filesystem.mkdir(&path("/dir-b/subdir-b"), 0).unwrap();
    filesystem.mv(&path("/dir-a/subdir-a"), &path("/dir-b/subdir-c"), 0).unwrap();

    assert!(filesystem
        .get_node(&path("/dir-a/subdir-a"))
        .err()
        .unwrap()
        .contains("Path not found"));
    assert!(filesystem.get_node(&path("/dir-b/subdir-c")).unwrap().is_directory());
    // subdir-b is not moved
    assert!(filesystem.get_node(&path("/dir-b/subdir-b")).unwrap().is_directory());
}

#[test]
fn filesystem_mv_file() {
    let mut filesystem = FileSystem::new(0);
    filesystem
        .create_file(&path("/dir-a/file-a"), 0, 0, Some("text/plain".to_string()), 0)
        .unwrap();
    filesystem
        .create_file(&path("/dir-b/file-b"), 0, 0, Some("image/png".to_string()), 0)
        .unwrap();
    filesystem.mv(&path("/dir-a/file-a.txt"), &path("/dir-b/file-a.txt"), 0).unwrap();

    assert!(filesystem
        .get_node(&path("/dir-a/file-a.txt"))
        .err()
        .unwrap()
        .contains("Path not found"));
    assert!(filesystem.get_node(&path("/dir-b/file-a.txt")).unwrap().is_file());
    // file-b is not moved
    assert!(filesystem.get_node(&path("/dir-b/file-b.png")).unwrap().is_file());
}

#[test]
fn filesystem_mv_creates_missing_destination_directory() {
    let mut filesystem = FileSystem::new(0);
    filesystem
        .create_file(&path("/a/x"), 7, 0, Some("text/plain".to_string()), 0)
        .unwrap();
    filesystem.mv(&path("/a/x.txt"), &path("/b/x.txt"), 0).unwrap();

    assert!(matches!(filesystem.get_node(&path("/a/x.txt")), Err(e) if e == "Path not found"));
    let node = filesystem.get_node(&path("/b/x.txt")).unwrap();
    assert!(node.is_file());
    assert_eq!(node.file_message_id(), Some(7));
}

#[test]
fn filesystem_mv_missing_source() {
    let mut filesystem = FileSystem::new(0);
    let r = filesystem.mv(&path("/a/x"), &path("/b/x"), 0);
    assert_eq!(r, Err("Node not found".to_string()));
}

#[test]
fn filesystem_node_get_nodes() {
    let node = FileSystemNode::Directory {
        created_at: 0,
        nodes: vec![("file-a".to_string(), FileSystemNode::new_file(0, 0, None, 0))],
    };

    assert_eq!(node.get_nodes().len(), 1);
}

#[test]
fn filesystem_node_ls_directories() {
    let node = FileSystemNode::Directory {
        created_at: 0,
        nodes: vec![
            ("dir-a".to_string(), FileSystemNode::new_directory(0)),
            ("file-a".to_string(), FileSystemNode::new_file(0, 0, None, 0)),
        ],
    };

    let directories = node.ls_directories().unwrap();

    assert_eq!(directories.len(), 1);
    assert_eq!(directories[0], "dir-a");
}

#[test]
fn filesystem_node_ls_files() {
    let node = FileSystemNode::Directory {
        created_at: 0,
        nodes: vec![(
            "file-a".to_string(),
            FileSystemNode::new_file(0, 0, Some("text/plain".to_string()), 0),
        )],
    };

    let files = node.ls_files().unwrap();

    assert_eq!(files.len(), 1);
    assert_eq!(files[0], "file-a");
}

#[test]
fn filesystem_node_is_directory() {
    let node = FileSystemNode::new_directory(0);
    assert!(node.is_directory());
    let node = FileSystemNode::new_file(0, 0, Some("text/plain".to_string()), 0);
    assert!(!node.is_directory());
}

#[test]
fn filesystem_node_is_file() {
    let node = FileSystemNode::new_file(0, 0, Some("text/plain".to_string()), 0);
    assert!(node.is_file());
    let node = FileSystemNode::new_directory(0);
    assert!(!node.is_file());
}

#[test]
fn filesystem_node_metadata() {
    let node = FileSystemNode::new_file(42, 1000, Some("image/png".to_string()), 0);
    assert_eq!(node.file_message_id(), Some(42));
    assert_eq!(node.file_mime_type(), Some("image/png".to_string()));
    let dir = FileSystemNode::new_directory(0);
    assert_eq!(dir.file_message_id(), None);
    assert_eq!(dir.file_mime_type(), None);
}

#[test]
fn well_formedness_check() {
    assert!(FileSystem::default().check_wf());
    assert!(FileSystem::new(0).check_wf());

    // out of order children are rejected
    let unsorted = FileSystemNode::Directory {
        created_at: 0,
        nodes: vec![
            ("b".to_string(), FileSystemNode::new_directory(0)),
            ("a".to_string(), FileSystemNode::new_directory(0)),
        ],
    };
    assert!(!FileSystem::from_root(unsorted).check_wf());

    // a duplicate key is rejected too
    let duplicated = FileSystemNode::Directory {
        created_at: 0,
        nodes: vec![
            ("a".to_string(), FileSystemNode::new_directory(0)),
            ("a".to_string(), FileSystemNode::new_file(0, 0, None, 0)),
        ],
    };
    assert!(!FileSystem::from_root(duplicated).check_wf());

    // a file cannot stand for the root
    assert!(!FileSystem::from_root(FileSystemNode::new_file(0, 0, None, 0)).check_wf());
}

#[test]
fn fs_path_parse_and_print() {
    assert!(is_absolute(&path("/")));
    assert!(is_absolute(&path("/Documents")));
    assert!(is_absolute(&path("/Documents/file.txt")));
    assert!(!is_absolute(&path("Documents")));
    assert!(!is_absolute(&path("Documents/")));
    assert!(!is_absolute(&path("Documents/file.txt")));

    assert_eq!(path("/").to_string(), "/");
    assert_eq!(path("/a/b").to_string(), "/a/b");
    assert_eq!(path("//a///b/").to_string(), "/a/b");
    assert_eq!(path("/a/b").parent().to_string(), "/a");
    assert_eq!(path("/a").parent().to_string(), "/");
    assert_eq!(path("/").parent().to_string(), "/");
    assert_eq!(path("/a").join("b").to_string(), "/a/b");
    assert_eq!(path("/a").join("/c").to_string(), "/c");
    assert_eq!(path("/a/b").file_name(), Some("b".to_string()));
    assert_eq!(path("/").file_name(), None);
}
