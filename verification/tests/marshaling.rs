//! Tests of text marshaling and of the planners that depend on it.

use darknet::marshal::marshal;
use darknet::Error;

#[test]
fn marshal_plain_text_appends_terminator() {
    let text = b"yolov3.cfg".to_vec();
    let c = marshal(&text).unwrap();
    assert_eq!(c, b"yolov3.cfg\0".to_vec());
}

#[test]
fn marshal_empty_text_is_just_the_terminator() {
    let text = Vec::new();
    let c = marshal(&text).unwrap();
    assert_eq!(c, vec![0u8]);
}

#[test]
fn marshal_rejects_embedded_nul() {
    let text = b"bad\0path".to_vec();
    assert_eq!(marshal(&text), Err(Error::MarshalError));
}

#[test]
fn marshal_rejects_leading_and_trailing_nul() {
    assert_eq!(marshal(&b"\0path".to_vec()), Err(Error::MarshalError));
    assert_eq!(marshal(&b"path\0".to_vec()), Err(Error::MarshalError));
}

#[test]
fn load_metadata_marshals_the_path() {
    let call = darknet::load_metadata(&b"coco.data".to_vec()).unwrap();
    assert_eq!(call.path, b"coco.data\0".to_vec());
}

#[test]
fn load_metadata_rejects_nul_in_path() {
    let r = darknet::load_metadata(&b"co\0co.data".to_vec());
    assert_eq!(r.err(), Some(Error::MarshalError));
}

#[test]
fn save_image_rejects_nul_in_name() {
    let im = darknet::image_from_raw(9).unwrap();
    let r = darknet::save_image(&im, &b"out\0put".to_vec());
    assert_eq!(r.err(), Some(Error::MarshalError));
}

#[test]
fn save_image_plans_name_and_handle() {
    let im = darknet::image_from_raw(9).unwrap();
    let call = darknet::save_image(&im, &b"predictions".to_vec()).unwrap();
    assert_eq!(call.image, 9);
    assert_eq!(call.name, b"predictions\0".to_vec());
}

#[test]
fn load_names_owns_marshaled_labels() {
    let labels = vec![b"cat".to_vec(), b"dog".to_vec()];
    let names = darknet::load_names(&labels).unwrap();
    assert_eq!(names.len(), 2);
    assert_eq!(names.entry(0), &b"cat\0".to_vec());
    assert_eq!(names.entry(1), &b"dog\0".to_vec());
}

#[test]
fn load_names_rejects_label_with_nul() {
    let labels = vec![b"cat".to_vec(), b"d\0g".to_vec()];
    let r = darknet::load_names(&labels);
    assert_eq!(r.err(), Some(Error::MarshalError));
}

#[test]
fn load_names_of_no_labels_is_empty() {
    let names = darknet::load_names(&Vec::new()).unwrap();
    assert_eq!(names.len(), 0);
}
