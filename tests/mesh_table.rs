use lavapond::mesh::{load_obj_files, parse_u16, split_line, LoadError};

fn file(lines: &[&str]) -> Vec<Vec<u8>> {
    lines.iter().map(|l| l.as_bytes().to_vec()).collect()
}

fn tri(name: &str) -> Vec<String> {
    vec![
        format!("o {}", name),
        "v 0.0 0.0 0.0".to_string(),
        "v 1.0 0.0 0.0".to_string(),
        "v 0.0 1.0 0.0".to_string(),
        "f 1 2 3".to_string(),
    ]
}

#[test]
fn test_load_multiple_objects() {
    let mut lines = Vec::new();
    for name in ["circle", "circle_border", "rounded_rectangle", "rectangle_border", "rounded_rectangle_border", "rectangle"] {
        lines.extend(tri(name));
    }
    let refs: Vec<&str> = lines.iter().map(|s| s.as_str()).collect();
    let obj = load_obj_files(&vec![file(&refs)]).unwrap();

    assert_eq!(obj.pool.len(), 6);
}

#[test]
fn test_load_2obj() {
    let boxed = file(&["# box", "o Box", "v 0 0 0", "v 1 0 0", "v 1 1 0", "v 0 1 0", "f 1 2 3", "f 1 3 4"]);
    let obj = load_obj_files(&vec![boxed.clone(), boxed.clone(), boxed]).unwrap();
    assert_eq!(obj.vertices.len(), 12);
    assert_eq!(obj.indices, vec![0, 1, 2, 0, 2, 3, 4, 5, 6, 4, 6, 7, 8, 9, 10, 8, 10, 11]);
}

#[test]
fn second_file_is_rebased_by_first_vertex_count() {
    let first = file(&["o A", "v 0 0 0", "v 1 0 0", "v 0 1 0", "v 1 1 0", "v 2 2 0", "f 1 2 3"]);
    let second = file(&["o B", "v 0 0 0", "v 1 0 0", "v 0 1 0", "f 1 2 3", "f 3 2 1"]);
    let obj = load_obj_files(&vec![first, second]).unwrap();
    assert_eq!(obj.indices, vec![0, 1, 2, 5, 6, 7, 7, 6, 5]);
    assert_eq!(obj.pool.len(), 2);
    assert_eq!(obj.pool[0].name, b"A".to_vec());
    assert_eq!((obj.pool[0].index_offset, obj.pool[0].index_count), (0, 3));
    assert_eq!(obj.pool[1].name, b"B".to_vec());
    assert_eq!((obj.pool[1].index_offset, obj.pool[1].index_count), (3, 6));
}

#[test]
fn vertex_fields_are_kept_as_written() {
    let f = file(&["o A", "v 0.5 -1.25 7.0", "v 2.0"]);
    let obj = load_obj_files(&vec![f]).unwrap();
    assert_eq!(obj.vertices.len(), 2);
    assert_eq!(obj.vertices[0].x, b"0.5".to_vec());
    assert_eq!(obj.vertices[0].y, b"-1.25".to_vec());
    assert_eq!(obj.vertices[1].x, b"2.0".to_vec());
    assert_eq!(obj.vertices[1].y, b"-1.25".to_vec());
    assert_eq!(obj.vertices[1].z, b"7.0".to_vec());
}

#[test]
fn bad_face_fields_are_errors() {
    assert_eq!(load_obj_files(&vec![file(&["o A", "v 0 0 0", "f 0 1 1"])]).err(), Some(LoadError::BadIndex));
    assert_eq!(load_obj_files(&vec![file(&["o A", "f 1 x 1"])]).err(), Some(LoadError::BadIndex));
    assert_eq!(load_obj_files(&vec![file(&["o A", "f 1  2 3"])]).err(), Some(LoadError::BadIndex));
    assert_eq!(load_obj_files(&vec![file(&["o A", "f 65536 1 1"])]).err(), Some(LoadError::BadIndex));
}

#[test]
fn rebased_index_overflow_is_an_error() {
    let many: Vec<Vec<u8>> = (0..65536).map(|_| b"v 0 0 0".to_vec()).collect();
    let second = file(&["o B", "f 1 1 1"]);
    assert_eq!(load_obj_files(&vec![many, second]).err(), Some(LoadError::IndexOverflow));
}

#[test]
fn empty_input_gives_one_unnamed_mesh() {
    let obj = load_obj_files(&vec![]).unwrap();
    assert_eq!(obj.pool.len(), 1);
    assert!(obj.pool[0].name.is_empty());
    assert!(obj.indices.is_empty());
}

#[test]
fn parse_u16_like_from_str() {
    assert_eq!(parse_u16(b"0"), Some(0));
    assert_eq!(parse_u16(b"+17"), Some(17));
    assert_eq!(parse_u16(b"65535"), Some(65535));
    assert_eq!(parse_u16(b"65536"), None);
    assert_eq!(parse_u16(b""), None);
    assert_eq!(parse_u16(b"+"), None);
    assert_eq!(parse_u16(b"-1"), None);
    assert_eq!(parse_u16(b"1/2/3"), None);
    assert_eq!(parse_u16(b"0000012"), Some(12));
}

#[test]
fn split_line_on_single_spaces() {
    assert_eq!(split_line(b"f 1 2"), vec![b"f".to_vec(), b"1".to_vec(), b"2".to_vec()]);
    assert_eq!(split_line(b"a  b "), vec![b"a".to_vec(), vec![], b"b".to_vec(), vec![]]);
    assert_eq!(split_line(b""), vec![Vec::<u8>::new()]);
}

#[test]
fn mesh_range_counts_indices_added() {
    let f = file(&["o A", "v 0 0 0", "v 1 0 0", "v 0 1 0", "v 1 1 0", "f 1 2", "f 1 2 3 4", "o B", "f 4 3 2"]);
    let obj = load_obj_files(&vec![f]).unwrap();
    assert_eq!(obj.indices, vec![0, 1, 0, 1, 2, 3, 2, 1]);
    assert_eq!((obj.pool[0].index_offset, obj.pool[0].index_count), (0, 5));
    assert_eq!((obj.pool[1].index_offset, obj.pool[1].index_count), (5, 3));
}
