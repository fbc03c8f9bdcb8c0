use dbv::data_definition::file_format::{format_for_loading, format_for_saving, FileFormat};
use dbv::data_definition::matlab::{
    labels_from_doubles, labels_from_i32, labels_from_i64, MatlabData, MatlabError,
};
use dbv::data_definition::{DataLabel, DataPoint, DataPoints, UnexpectedLabel};
use dbv::double::Double;

fn d(x: f64) -> Double {
    Double::from_bits(x.to_bits())
}

fn generate_data_points() -> DataPoints {
    (0..10)
        .map(|i| {
            let i = i as f64;
            DataPoint {
                x0: d(i),
                x1: d(i * 3.0),
                label: if i % 4.0 == 0.0 { DataLabel::Normal } else { DataLabel::Anomaly },
            }
        })
        .collect()
}

#[test]
fn conversion() {
    let original: DataPoints = generate_data_points();
    let converted: MatlabData = MatlabData::from(&original);
    let actual: DataPoints = converted.to_points().expect("should be valid to convert back");
    assert_eq!(actual, original);
}

#[test]
fn arrays_hold_the_first_column_then_the_second() {
    let points = vec![
        DataPoint::new(d(1.0), d(2.0), DataLabel::Normal),
        DataPoint::new(d(3.0), d(4.0), DataLabel::Anomaly),
        DataPoint::new(d(5.0), d(6.0), DataLabel::Anomaly),
    ];
    let arrays = MatlabData::from(&points);
    assert_eq!(arrays.x(), &vec![d(1.0), d(3.0), d(5.0), d(2.0), d(4.0), d(6.0)]);
    assert_eq!(arrays.y(), &vec![0u8, 1, 1]);
    assert_eq!(arrays.validate(), Ok(()));
}

#[test]
fn no_points_give_empty_arrays_and_back() {
    let arrays = MatlabData::from(&[]);
    assert!(arrays.x().is_empty());
    assert!(arrays.y().is_empty());
    assert_eq!(arrays.to_points(), Ok(vec![]));
}

#[test]
fn round_trip_keeps_every_bit_pattern() {
    let points = vec![
        DataPoint::new(d(-0.0), d(f64::NAN), DataLabel::Normal),
        DataPoint::new(d(f64::MIN_POSITIVE), d(f64::NEG_INFINITY), DataLabel::Anomaly),
        DataPoint::new(d(0.1 + 0.2), d(1e308), DataLabel::Normal),
    ];
    assert_eq!(MatlabData::from(&points).to_points(), Ok(points));
}

#[test]
fn sizes_that_do_not_agree_are_refused() {
    let arrays = MatlabData::new(vec![d(1.0), d(2.0), d(3.0)], vec![0, 1]);
    assert_eq!(arrays.validate(), Err(MatlabError::Size { x_len: 3, y_len: 2 }));
    assert_eq!(arrays.to_points(), Err(MatlabError::Size { x_len: 3, y_len: 2 }));
    let arrays = MatlabData::new(vec![d(1.0), d(2.0)], vec![0, 1]);
    assert_eq!(arrays.to_points(), Err(MatlabError::Size { x_len: 2, y_len: 2 }));
    let arrays = MatlabData::new(vec![], vec![0]);
    assert_eq!(arrays.to_points(), Err(MatlabError::Size { x_len: 0, y_len: 1 }));
}

#[test]
fn the_first_label_that_is_no_label_is_named() {
    let arrays = MatlabData::new(vec![d(1.0); 8], vec![0, 1, 2, 3]);
    assert_eq!(arrays.validate(), Ok(()));
    assert_eq!(arrays.to_points(), Err(MatlabError::Label { index: 2 }));
}

#[test]
fn labels_are_zero_and_one() {
    assert_eq!(DataLabel::try_from(0), Ok(DataLabel::Normal));
    assert_eq!(DataLabel::try_from(1), Ok(DataLabel::Anomaly));
    assert_eq!(DataLabel::try_from(2), Err(UnexpectedLabel { value: 2 }));
    assert_eq!(DataLabel::try_from(255), Err(UnexpectedLabel { value: 255 }));
    assert_eq!(DataLabel::Normal.as_int(), 0);
    assert_eq!(DataLabel::Anomaly.as_int(), 1);
    assert!(DataLabel::Normal.is_normal() && !DataLabel::Normal.is_anomaly());
    assert!(DataLabel::Anomaly.is_anomaly() && !DataLabel::Anomaly.is_normal());
    assert_eq!(DataLabel::Normal.as_str(), "N");
    assert_eq!(DataLabel::Anomaly.as_str(), "A");
}

#[test]
fn labels_stored_as_doubles() {
    assert_eq!(labels_from_doubles(&[d(0.0), d(1.0), d(-0.0), d(1.0)]), Ok(vec![0, 1, 0, 1]));
    assert_eq!(labels_from_doubles(&[]), Ok(vec![]));
    assert_eq!(
        labels_from_doubles(&[d(0.0), d(0.5), d(2.0)]),
        Err(MatlabError::Label { index: 1 })
    );
    assert_eq!(labels_from_doubles(&[d(f64::NAN)]), Err(MatlabError::Label { index: 0 }));
    assert_eq!(labels_from_doubles(&[d(1.0), d(-1.0)]), Err(MatlabError::Label { index: 1 }));
}

#[test]
fn labels_stored_as_integers() {
    assert_eq!(labels_from_i32(&[0, 1, 1, 0]), Ok(vec![0, 1, 1, 0]));
    assert_eq!(labels_from_i32(&[0, -1, 7]), Err(MatlabError::Label { index: 1 }));
    assert_eq!(labels_from_i64(&[1, 0]), Ok(vec![1, 0]));
    assert_eq!(labels_from_i64(&[1, 0, i64::MAX]), Err(MatlabError::Label { index: 2 }));
    assert_eq!(labels_from_i64(&[256]), Err(MatlabError::Label { index: 0 }));
}

#[test]
fn the_ending_of_a_file_name_chooses_the_format() {
    assert_eq!(format_for_saving("points.mat"), Some(FileFormat::Matlab));
    assert_eq!(format_for_saving("points.csv"), Some(FileFormat::Csv));
    assert_eq!(format_for_saving("format"), Some(FileFormat::Matlab));
    assert_eq!(format_for_saving("mat"), Some(FileFormat::Matlab));
    assert_eq!(format_for_saving("points.mat.csv"), Some(FileFormat::Csv));
    assert_eq!(format_for_saving("points.MAT"), None);
    assert_eq!(format_for_saving("points.txt"), None);
    assert_eq!(format_for_saving("at"), None);
    assert_eq!(format_for_saving(""), None);
    assert_eq!(format_for_saving("données.csv"), Some(FileFormat::Csv));
}

#[test]
fn a_file_of_no_known_format_is_read_as_csv_and_reported() {
    assert_eq!(format_for_loading("points.mat"), (FileFormat::Matlab, None));
    assert_eq!(format_for_loading("points.csv"), (FileFormat::Csv, None));
    assert_eq!(
        format_for_loading("points.txt"),
        (FileFormat::Csv, Some("Extension not recognized. Attempted to load as CSV"))
    );
}
