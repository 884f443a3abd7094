use photostamp::matcher::{classify_filename, FileClass};

#[test]
fn img_with_time_classifies_and_extracts() {
    let c = classify_filename(b"IMG_20230115_143000_1.jpg");
    assert_eq!(
        c,
        FileClass::ImgWithTime { date: b"20230115".to_vec(), time: b"143000".to_vec() }
    );
}

#[test]
fn img_with_time_minimal_name() {
    let c = classify_filename(b"IMG_20230115_143000.jpg");
    assert_eq!(
        c,
        FileClass::ImgWithTime { date: b"20230115".to_vec(), time: b"143000".to_vec() }
    );
}

#[test]
fn vid_with_time_classifies_and_extracts() {
    let c = classify_filename(b"VID_20220304_050607.mp4");
    assert_eq!(
        c,
        FileClass::VidWithTime { date: b"20220304".to_vec(), time: b"050607".to_vec() }
    );
}

#[test]
fn img_date_only_classifies_and_extracts() {
    let c = classify_filename(b"IMG-20210601-WA0001.jpg");
    assert_eq!(c, FileClass::ImgDateOnly { date: b"20210601".to_vec() });
}

#[test]
fn img_date_only_needs_a_digit_after_wa() {
    assert_eq!(classify_filename(b"IMG-20210601-WA.jpg"), FileClass::NoMatch);
    assert_eq!(
        classify_filename(b"IMG-20210601-WA1.jpg"),
        FileClass::ImgDateOnly { date: b"20210601".to_vec() }
    );
}

#[test]
fn screenshot_classifies_and_extracts() {
    let c = classify_filename(b"Screenshot_20230910-101112.jpg");
    assert_eq!(
        c,
        FileClass::Screenshot { date: b"20230910".to_vec(), time: b"101112".to_vec() }
    );
}

#[test]
fn free_tail_is_allowed_before_extension() {
    let c = classify_filename(b"IMG_20230115_14300012 edited copy!.jpg");
    assert_eq!(
        c,
        FileClass::ImgWithTime { date: b"20230115".to_vec(), time: b"143000".to_vec() }
    );
}

#[test]
fn newline_in_tail_defeats_the_wildcard() {
    assert_eq!(classify_filename(b"IMG_20230115_143000\nx.jpg"), FileClass::NoMatch);
}

#[test]
fn non_matching_names_classify_as_no_match() {
    assert_eq!(classify_filename(b""), FileClass::NoMatch);
    assert_eq!(classify_filename(b"notes.txt"), FileClass::NoMatch);
    assert_eq!(classify_filename(b"IMG_2023011_143000.jpg"), FileClass::NoMatch);
    assert_eq!(classify_filename(b"IMG_20230115-143000.jpg"), FileClass::NoMatch);
    assert_eq!(classify_filename(b"IMG_20230115_143000.jpeg"), FileClass::NoMatch);
    assert_eq!(classify_filename(b"img_20230115_143000.jpg"), FileClass::NoMatch);
    assert_eq!(classify_filename(b"IMG_20230115_143000.JPG"), FileClass::NoMatch);
    assert_eq!(classify_filename(b"VID_20220304_050607.jpg"), FileClass::NoMatch);
    assert_eq!(classify_filename(b"IMG_2023X115_143000.jpg"), FileClass::NoMatch);
    assert_eq!(classify_filename(b"Screenshot-20230910-101112.jpg"), FileClass::NoMatch);
}
