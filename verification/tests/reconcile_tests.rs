use photostamp::datetime::{format_exif_value, DateTime};
use photostamp::matcher::{classify_filename, FileClass};
use photostamp::reconcile::{
    candidate_of, file_effects, needs_metadata_read, plan_metadata, should_relocate, Effect,
    MetaAction,
};
use photostamp::trusted::{modified_time_seconds, parse_embedded_datetime};

fn dt(year: i32, month: u8, day: u8, hour: u8, minute: u8, second: u8) -> DateTime {
    DateTime { year, month, day, hour, minute, second }
}

#[test]
fn embedded_datetime_text_parses() {
    assert_eq!(
        parse_embedded_datetime(b"2021:06:02 10:00:00"),
        Some(dt(2021, 6, 2, 10, 0, 0))
    );
}

#[test]
fn embedded_datetime_garbage_is_none() {
    assert_eq!(parse_embedded_datetime(b"not a date"), None);
    assert_eq!(parse_embedded_datetime(b""), None);
    assert_eq!(parse_embedded_datetime(b"2021:13:02 10:00:00"), None);
    assert_eq!(parse_embedded_datetime(b"2021:06:02"), None);
}

#[test]
fn epoch_seconds_of_the_epoch_is_zero() {
    assert_eq!(modified_time_seconds(&dt(1970, 1, 1, 0, 0, 0)), 0);
}

#[test]
fn epoch_seconds_of_a_known_instant() {
    assert_eq!(modified_time_seconds(&dt(2023, 1, 15, 14, 30, 0)), 1673793000);
}

#[test]
fn candidate_earlier_than_embedded_requests_rewrite() {
    let class = classify_filename(b"IMG-20210601-WA0001.jpg");
    let embedded = parse_embedded_datetime(b"2021:06:02 10:00:00");
    let action = plan_metadata(&class, embedded);
    assert_eq!(action, MetaAction::RewriteExif(dt(2021, 6, 1, 0, 0, 0)));
    match action {
        MetaAction::RewriteExif(value) => {
            assert_eq!(format_exif_value(&value), b"2021:06:01 00:00:00".to_vec());
        }
        _ => unreachable!(),
    }
}

#[test]
fn candidate_equal_or_later_requests_nothing() {
    let class = classify_filename(b"IMG_20230115_143000.jpg");
    let equal = Some(dt(2023, 1, 15, 14, 30, 0));
    assert_eq!(plan_metadata(&class, equal), MetaAction::NoChange);
    let earlier_embedded = Some(dt(2023, 1, 15, 14, 29, 59));
    assert_eq!(plan_metadata(&class, earlier_embedded), MetaAction::NoChange);
}

#[test]
fn missing_embedded_date_routes_to_timestamp_correction() {
    let class = classify_filename(b"IMG_20230115_143000_1.jpg");
    assert_eq!(
        plan_metadata(&class, None),
        MetaAction::SetModifiedTime(dt(2023, 1, 15, 14, 30, 0))
    );
}

#[test]
fn video_files_skip_the_metadata_stage() {
    let class = classify_filename(b"VID_20220304_050607.mp4");
    assert!(!needs_metadata_read(&class));
    assert_eq!(plan_metadata(&class, None), MetaAction::NotApplicable);
    assert_eq!(
        file_effects(&class, None, true, false),
        vec![Effect::Relocate]
    );
}

#[test]
fn unparseable_digits_report_failure_but_still_relocate() {
    let class = classify_filename(b"IMG_20231345_999999_1.jpg");
    assert!(matches!(class, FileClass::ImgWithTime { .. }));
    assert_eq!(candidate_of(&class), None);
    assert_eq!(plan_metadata(&class, None), MetaAction::ParseFailure);
    assert_eq!(file_effects(&class, None, true, false), vec![Effect::Relocate]);
    assert_eq!(file_effects(&class, None, false, false), vec![]);
}

#[test]
fn scenario_no_embedded_date_with_output_directory() {
    let class = classify_filename(b"IMG_20230115_143000_1.jpg");
    let effects = file_effects(&class, None, true, false);
    let when = dt(2023, 1, 15, 14, 30, 0);
    assert_eq!(effects, vec![Effect::SetModifiedTime(when), Effect::Relocate]);
    assert_eq!(modified_time_seconds(&when), 1673793000);
}

#[test]
fn dry_run_plans_identically_but_performs_nothing() {
    let names: [&[u8]; 4] = [
        b"IMG_20230115_143000_1.jpg",
        b"IMG-20210601-WA0001.jpg",
        b"VID_20220304_050607.mp4",
        b"notes.txt",
    ];
    let embedded = parse_embedded_datetime(b"2021:06:02 10:00:00");
    for name in names {
        let class = classify_filename(name);
        let dry_class = classify_filename(name);
        assert_eq!(class, dry_class);
        assert_eq!(
            plan_metadata(&class, embedded),
            plan_metadata(&dry_class, embedded)
        );
        assert_eq!(file_effects(&class, embedded, true, true), vec![]);
        assert_eq!(file_effects(&class, None, true, true), vec![]);
    }
}

#[test]
fn unmatched_files_are_never_touched_nor_relocated() {
    let class = classify_filename(b"holiday.jpg");
    assert_eq!(class, FileClass::NoMatch);
    assert!(!needs_metadata_read(&class));
    assert!(!should_relocate(&class, true));
    assert_eq!(plan_metadata(&class, None), MetaAction::NotApplicable);
    assert_eq!(file_effects(&class, None, true, false), vec![]);
}

#[test]
fn matched_files_relocate_only_with_an_output_directory() {
    let class = classify_filename(b"Screenshot_20230910-101112.jpg");
    assert!(should_relocate(&class, true));
    assert!(!should_relocate(&class, false));
    let effects = file_effects(&class, None, false, false);
    assert_eq!(
        effects,
        vec![Effect::SetModifiedTime(dt(2023, 9, 10, 10, 11, 12))]
    );
}
