use odr_mesh::bundle::{File, Files};
use odr_mesh::enums::MapFormatType;

fn bundle(names: &[&str]) -> Files {
    let mut files = Files::new();
    for (i, name) in names.iter().enumerate() {
        files.add_file(File::new(name.to_string(), vec![i as u8]));
    }
    files
}

#[test]
fn detects_opendrive_by_suffix() {
    let files = bundle(&["readme.txt", "town.xodr"]);
    assert_eq!(files.detect_format(), Ok(MapFormatType::OpenDrive));
}

#[test]
fn bundle_without_map_has_no_format() {
    assert_eq!(
        bundle(&["readme.txt", "xodr"]).detect_format(),
        Err("No format detected".to_string())
    );
    assert_eq!(
        Files::new().detect_format(),
        Err("No format detected".to_string())
    );
}

#[test]
fn finds_first_file_with_extension() {
    let files = bundle(&["a.txt", "b.xodr", "c.xodr"]);
    let found = files.find_by_extension(".xodr").unwrap();
    assert_eq!(found.get_name(), "b.xodr");
    assert_eq!(found.get_data(), &[1u8]);
    assert!(files.find_by_extension(".bin").is_none());
}

#[test]
fn filters_files_with_extension_in_order() {
    let files = bundle(&["a.xodr", "b.txt", "c.xodr"]);
    let names: Vec<&str> = files
        .filter_by_extension(".xodr")
        .iter()
        .map(|f| f.get_name())
        .collect();
    assert_eq!(names, vec!["a.xodr", "c.xodr"]);
    assert!(files.filter_by_extension(".bin").is_empty());
}

#[test]
fn files_keep_order_of_addition() {
    let files = bundle(&["x", "y"]);
    let all = files.get_files();
    assert_eq!(all.len(), 2);
    assert_eq!(all[0].get_name(), "x");
    assert_eq!(all[1].get_data(), &[1u8]);
}
