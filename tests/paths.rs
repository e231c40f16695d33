use folio::paths::{directory_under, join_segments, normal_segments};

#[test]
fn keeps_named_components_in_order() {
    assert_eq!(normal_segments("a/b/../c/./d/../test.txt"), vec!["a", "b", "c", "d", "test.txt"]);
}

#[test]
fn drops_root_anchors_and_empty_pieces() {
    assert_eq!(normal_segments("//etc///passwd/"), vec!["etc", "passwd"]);
}

#[test]
fn empty_path_has_no_components() {
    assert!(normal_segments("").is_empty());
    assert!(normal_segments("../../..").is_empty());
}

#[test]
fn dotted_names_are_kept() {
    assert_eq!(normal_segments("...//.hidden/a..b"), vec!["...", ".hidden", "a..b"]);
}

#[test]
fn fuzzed_components_never_climb() {
    let pieces = ["..", ".", "", "a", "b.txt", "..."];
    for x in 0..pieces.len() {
        for y in 0..pieces.len() {
            for z in 0..pieces.len() {
                let rel = format!("{}/{}/{}", pieces[x], pieces[y], pieces[z]);
                let segs = normal_segments(&rel);
                for s in &segs {
                    assert!(!s.is_empty() && s != "." && s != ".." && !s.contains('/'));
                }
                let full = join_segments("/root", &segs);
                assert!(full.starts_with("/root"));
                if !segs.is_empty() {
                    assert!(full.starts_with("/root/") && full.len() > "/root/".len());
                }
            }
        }
    }
}

#[test]
fn directory_under_relative_and_absolute() {
    assert_eq!(directory_under("/srv", "./uploads"), "/srv/./uploads");
    assert_eq!(directory_under("/srv", "/tmp/x"), "/tmp/x");
    assert_eq!(directory_under("", "uploads"), "uploads");
}

#[test]
fn join_segments_puts_one_separator_between() {
    let segs = vec![String::from("a"), String::from("b")];
    assert_eq!(join_segments("/srv", &segs), "/srv/a/b");
    assert_eq!(join_segments("/srv/", &segs), "/srv/a/b");
    assert_eq!(join_segments("/srv", &vec![]), "/srv");
}
