//! Tests of the detection pipeline: extraction, suppression, annotation,
//! and release with the count current at release time.

use darknet::Error;

#[test]
fn extraction_pairs_handle_and_count() {
    let d = darknet::detections_from_raw(7, 5).unwrap();
    assert_eq!(d.raw(), 7);
    assert_eq!(d.current_count(), 5);
}

#[test]
fn extraction_rejects_null_handle_and_negative_count() {
    assert_eq!(darknet::detections_from_raw(0, 5).err(), Some(Error::LoadError));
    assert_eq!(darknet::detections_from_raw(7, -1).err(), Some(Error::LoadError));
}

#[test]
fn release_uses_the_count_left_by_suppression() {
    // Stub engine: extraction reports 5 boxes, suppression leaves 3.
    let mut d = darknet::detections_from_raw(7, 5).unwrap();

    let nms = darknet::do_nms_obj(&d, 20, 450).unwrap();
    assert_eq!((nms.dets, nms.count, nms.classes, nms.thresh_milli), (7, 5, 20, 450));

    darknet::apply_nms_count(&mut d, 3).unwrap();

    let free = darknet::free_detections(d);
    assert_eq!(free.dets, 7);
    assert_eq!(free.count, 3);
}

#[test]
fn release_without_suppression_uses_the_extraction_count() {
    let d = darknet::detections_from_raw(7, 5).unwrap();
    let free = darknet::free_detections(d);
    assert_eq!(free.count, 5);
}

#[test]
fn suppression_cannot_grow_the_count() {
    let mut d = darknet::detections_from_raw(7, 3).unwrap();
    assert_eq!(darknet::apply_nms_count(&mut d, 4).err(), Some(Error::InvalidArgument));
    assert_eq!(darknet::apply_nms_count(&mut d, -1).err(), Some(Error::InvalidArgument));
    // The pair is untouched by the rejected reports.
    assert_eq!(d.current_count(), 3);
    assert_eq!(d.raw(), 7);
}

#[test]
fn suppression_to_zero_is_allowed() {
    let mut d = darknet::detections_from_raw(7, 3).unwrap();
    darknet::apply_nms_count(&mut d, 0).unwrap();
    assert_eq!(darknet::free_detections(d).count, 0);
}

#[test]
fn nms_plan_rejects_bad_classes_and_threshold() {
    let d = darknet::detections_from_raw(7, 5).unwrap();
    assert_eq!(darknet::do_nms_obj(&d, 0, 450).err(), Some(Error::InvalidArgument));
    assert_eq!(darknet::do_nms_obj(&d, 20, -1).err(), Some(Error::InvalidArgument));
}

#[test]
fn box_extraction_plan_carries_all_arguments() {
    let net = darknet::network_from_raw(17).unwrap();
    let c = darknet::get_network_boxes(&net, 640, 480, 1, 500, false, true).unwrap();
    assert_eq!(c.net, 17);
    assert_eq!((c.width, c.height), (640, 480));
    assert_eq!((c.thresh_milli, c.hier_milli), (1, 500));
    assert_eq!((c.wants_map, c.relative), (false, true));
}

#[test]
fn box_extraction_rejects_bad_arguments() {
    let net = darknet::network_from_raw(17).unwrap();
    assert_eq!(
        darknet::get_network_boxes(&net, 0, 480, 1, 500, false, true).err(),
        Some(Error::InvalidArgument)
    );
    assert_eq!(
        darknet::get_network_boxes(&net, 640, -2, 1, 500, false, true).err(),
        Some(Error::InvalidArgument)
    );
    assert_eq!(
        darknet::get_network_boxes(&net, 640, 480, -1, 500, false, true).err(),
        Some(Error::InvalidArgument)
    );
    assert_eq!(
        darknet::get_network_boxes(&net, 640, 480, 1, -1, false, true).err(),
        Some(Error::InvalidArgument)
    );
}

#[test]
fn annotation_still_sees_unmodified_label_storage() {
    let labels = vec![b"cat".to_vec(), b"dog".to_vec()];
    let names = darknet::load_names(&labels).unwrap();

    // Churn the allocator between building the list and using it, the way
    // a dangling pointer array would be overwritten.
    let mut churn: Vec<Vec<u8>> = Vec::new();
    for i in 0..64u8 {
        churn.push(vec![i; 64]);
    }
    churn.clear();

    let mut img = darknet::image_from_raw(23).unwrap();
    let dets = darknet::detections_from_raw(7, 2).unwrap();
    let alphabet = darknet::load_alphabet(31);
    let call = darknet::draw_detections(&mut img, &dets, 250, &names, &alphabet, 2).unwrap();
    assert_eq!((call.image, call.dets, call.count), (23, 7, 2));
    assert_eq!((call.alphabet, call.classes, call.thresh_milli), (31, 2, 250));

    // The list still owns the exact marshaled labels.
    assert_eq!(names.entry(0), &b"cat\0".to_vec());
    assert_eq!(names.entry(1), &b"dog\0".to_vec());
}

#[test]
fn annotation_rejects_more_classes_than_labels() {
    let names = darknet::load_names(&vec![b"cat".to_vec(), b"dog".to_vec()]).unwrap();
    let mut img = darknet::image_from_raw(23).unwrap();
    let dets = darknet::detections_from_raw(7, 2).unwrap();
    let alphabet = darknet::load_alphabet(31);
    let r = darknet::draw_detections(&mut img, &dets, 250, &names, &alphabet, 3);
    assert_eq!(r.err(), Some(Error::InvalidArgument));
}

#[test]
fn annotation_rejects_bad_classes_and_threshold() {
    let names = darknet::load_names(&vec![b"cat".to_vec()]).unwrap();
    let mut img = darknet::image_from_raw(23).unwrap();
    let dets = darknet::detections_from_raw(7, 2).unwrap();
    let alphabet = darknet::load_alphabet(31);
    assert_eq!(
        darknet::draw_detections(&mut img, &dets, 250, &names, &alphabet, 0).err(),
        Some(Error::InvalidArgument)
    );
    assert_eq!(
        darknet::draw_detections(&mut img, &dets, -1, &names, &alphabet, 1).err(),
        Some(Error::InvalidArgument)
    );
}

#[test]
fn metadata_keeps_classes_and_names_handle() {
    let m = darknet::metadata_from_raw(20, 29).unwrap();
    assert_eq!(m.class_count(), 20);
    assert_eq!(m.names_raw(), 29);
}

#[test]
fn metadata_rejects_negative_class_count() {
    assert_eq!(darknet::metadata_from_raw(-1, 29).err(), Some(Error::LoadError));
}

#[test]
fn alphabet_keeps_its_handle() {
    let a = darknet::load_alphabet(31);
    assert_eq!(a.raw(), 31);
}
