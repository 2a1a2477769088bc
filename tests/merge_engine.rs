use hdr_merge::clock::LocalTime;
use hdr_merge::codec::{decode, encode_png};
use hdr_merge::error::HdrError;
use hdr_merge::merge::{check_batch_size, merge_rasters};
use hdr_merge::pipeline::{
    analyze_images, choose_output_dir, finish_merge, output_paths, plan_merge, InputFile,
};
use hdr_merge::raster::Raster;

fn flat(width: u32, height: u32, value: u16) -> Raster {
    let len = (width as usize) * (height as usize) * 3;
    Raster::from_raw(width, height, vec![value; len]).unwrap()
}

fn png_of(r: &Raster) -> Vec<u8> {
    encode_png(r).unwrap()
}

fn input(path: &str, contents: Result<Vec<u8>, String>) -> InputFile {
    InputFile { path: path.to_string(), contents }
}

fn at(year: i32, month: u32, day: u32, hour: u32, minute: u32, second: u32) -> LocalTime {
    LocalTime { year, month, day, hour, minute, second, rfc3339: String::new() }
}

#[test]
fn from_raw_checks_length() {
    assert!(Raster::from_raw(2, 2, vec![0; 12]).is_some());
    assert!(Raster::from_raw(2, 2, vec![0; 11]).is_none());
    assert!(Raster::from_raw(2, 2, vec![0; 13]).is_none());
    assert!(Raster::from_raw(0, 7, vec![]).is_some());
}

#[test]
fn merge_of_two_truncates_the_mean() {
    let a = Raster::from_raw(2, 1, vec![1, 2, 3, 65535, 0, 10]).unwrap();
    let b = Raster::from_raw(2, 1, vec![2, 2, 65535, 65534, 1, 11]).unwrap();
    let m = merge_rasters(&vec![a, b]).unwrap();
    assert_eq!((m.width, m.height), (2, 1));
    assert_eq!(m.data, vec![1, 2, 32769, 65534, 0, 10]);
}

#[test]
fn merge_of_five_at_maximum_does_not_overflow() {
    let rs: Vec<Raster> = (0..5).map(|_| flat(1, 1, 65535)).collect();
    let m = merge_rasters(&rs).unwrap();
    assert_eq!(m.data, vec![65535, 65535, 65535]);
}

#[test]
fn merge_of_three_flat_rasters_is_their_mean() {
    let rs = vec![flat(2, 2, 100), flat(2, 2, 200), flat(2, 2, 300)];
    let m = merge_rasters(&rs).unwrap();
    assert_eq!((m.width, m.height), (2, 2));
    assert_eq!(m.data, vec![200u16; 12]);
}

#[test]
fn merge_batch_size_limits() {
    assert_eq!(check_batch_size(1), Err(HdrError::InvalidArgument));
    assert_eq!(check_batch_size(6), Err(HdrError::InvalidArgument));
    assert_eq!(check_batch_size(0), Err(HdrError::InvalidArgument));
    assert_eq!(check_batch_size(2), Ok(()));
    assert_eq!(check_batch_size(5), Ok(()));
    assert_eq!(merge_rasters(&vec![flat(1, 1, 3)]).unwrap_err(), HdrError::InvalidArgument);
    let six: Vec<Raster> = (0..6).map(|_| flat(1, 1, 3)).collect();
    assert_eq!(merge_rasters(&six).unwrap_err(), HdrError::InvalidArgument);
}

#[test]
fn plan_rejects_batch_size_before_reading() {
    let one = vec![input("a.png", Err("unread".to_string()))];
    let dir = Some("no_such_output_dir_for_tests".to_string());
    assert_eq!(plan_merge(&one, &dir, false).err(), Some(HdrError::InvalidArgument));
    let six: Vec<InputFile> = (0..6).map(|_| input("a.png", Err("unread".to_string()))).collect();
    assert_eq!(plan_merge(&six, &dir, true).err(), Some(HdrError::InvalidArgument));
    assert!(!std::path::Path::new("no_such_output_dir_for_tests").exists());
}

#[test]
fn merge_dimension_mismatch() {
    let wide = flat(3, 2, 1);
    let tall = flat(2, 3, 1);
    let base = flat(2, 2, 1);
    assert_eq!(merge_rasters(&vec![base.clone(), wide]).unwrap_err(), HdrError::DimensionMismatch);
    assert_eq!(merge_rasters(&vec![base, tall]).unwrap_err(), HdrError::DimensionMismatch);
}

#[test]
fn png_round_trip_keeps_channels() {
    let r = Raster::from_raw(2, 1, vec![0, 1, 65535, 300, 200, 100]).unwrap();
    let bytes = encode_png(&r).unwrap();
    assert_eq!(&bytes[1..4], b"PNG");
    let back = decode(&bytes).unwrap();
    assert_eq!((back.width, back.height), (2, 1));
    assert_eq!(back.data, r.data);
}

#[test]
fn decode_widens_eight_bit_grey() {
    let grey = image::GrayImage::from_raw(2, 1, vec![1, 255]).unwrap();
    let mut bytes: Vec<u8> = Vec::new();
    image::DynamicImage::ImageLuma8(grey)
        .write_to(&mut std::io::Cursor::new(&mut bytes), image::ImageFormat::Png)
        .unwrap();
    let r = decode(&bytes).unwrap();
    assert_eq!((r.width, r.height), (2, 1));
    assert_eq!(r.data, vec![257, 257, 257, 65535, 65535, 65535]);
}

#[test]
fn decode_rejects_garbage() {
    assert!(matches!(decode(b"not an image"), Err(HdrError::Decode(_))));
    assert!(matches!(decode(&[]), Err(HdrError::Decode(_))));
}

#[test]
fn analyze_scenarios() {
    assert_eq!(analyze_images(&vec![]).err(), Some(HdrError::NoInput));
    let bad = vec![input("p.png", Ok(b"garbage".to_vec()))];
    assert!(matches!(analyze_images(&bad), Err(HdrError::Decode(_))));
    let unread = vec![
        input("a.png", Ok(png_of(&flat(1, 1, 0)))),
        input("b.png", Err("missing".to_string())),
    ];
    assert_eq!(analyze_images(&unread).err(), Some(HdrError::Decode("missing".to_string())));
}

#[test]
fn analyze_keeps_order_and_values() {
    let inputs = vec![
        input("white.png", Ok(png_of(&flat(2, 2, 65535)))),
        input("black.png", Ok(png_of(&flat(1, 3, 0)))),
        input("red.png", Ok(png_of(&Raster::from_raw(1, 1, vec![65535, 0, 0]).unwrap()))),
    ];
    let stats = analyze_images(&inputs).unwrap();
    assert_eq!(stats.len(), 3);
    assert_eq!(stats[0].path, "white.png");
    assert_eq!(stats[0].average_luma.numerator, stats[0].average_luma.denominator);
    assert_eq!(stats[1].path, "black.png");
    assert_eq!(stats[1].average_luma.numerator, 0);
    assert_eq!(stats[2].path, "red.png");
    assert_eq!(stats[2].average_luma.numerator, 2126 * 65535);
    assert_eq!(stats[2].average_luma.denominator, 10000 * 65535);
}

#[test]
fn output_dir_choice() {
    assert_eq!(choose_output_dir(&Some("out".to_string()), "/a/b.png"), Ok("out".to_string()));
    assert_eq!(choose_output_dir(&None, "shots/a.png"), Ok("shots".to_string()));
    assert_eq!(choose_output_dir(&None, "a.png"), Ok(String::new()));
    assert_eq!(choose_output_dir(&None, "/"), Err(HdrError::PathError));
    assert_eq!(choose_output_dir(&None, ""), Err(HdrError::PathError));
}

#[test]
fn output_names_follow_the_stamp() {
    let t = at(2024, 3, 5, 7, 8, 9);
    let (png, exr) = output_paths("out", &t, true);
    assert_eq!(png, "out/hdr_merge_20240305_070809.png");
    assert_eq!(exr, Some("out/hdr_merge_20240305_070809.exr".to_string()));
    let (png, exr) = output_paths("", &at(987, 12, 31, 23, 59, 59), false);
    assert_eq!(png, "hdr_merge_09871231_235959.png");
    assert_eq!(exr, None);
    let (png, _) = output_paths("d", &at(12345, 1, 1, 0, 0, 0), false);
    assert_eq!(png, "d/hdr_merge_+123450101_000000.png");
    let (png, _) = output_paths("d", &at(-7, 1, 1, 0, 0, 0), false);
    assert_eq!(png, "d/hdr_merge_-00070101_000000.png");
}

#[test]
fn stamp_matches_chrono_format() {
    let now = chrono::NaiveDate::from_ymd_opt(2031, 11, 2)
        .unwrap()
        .and_hms_opt(14, 5, 0)
        .unwrap();
    let expected = format!("x/hdr_merge_{}.png", now.format("%Y%m%d_%H%M%S"));
    let (png, _) = output_paths("x", &at(2031, 11, 2, 14, 5, 0), false);
    assert_eq!(png, expected);
}

#[test]
fn plan_merges_three_decoded_images() {
    let inputs = vec![
        input("shots/a.png", Ok(png_of(&flat(2, 2, 100)))),
        input("shots/b.png", Ok(png_of(&flat(2, 2, 200)))),
        input("shots/c.png", Ok(png_of(&flat(2, 2, 300)))),
    ];
    let plan = plan_merge(&inputs, &None, true).unwrap();
    assert_eq!(plan.merged.data, vec![200u16; 12]);
    assert_eq!(plan.output_dir, "shots");
    assert!(plan.png_path.starts_with("shots/hdr_merge_"));
    assert!(plan.png_path.ends_with(".png"));
    let exr = plan.exr_path.clone().unwrap();
    assert_eq!(exr.trim_end_matches(".exr"), plan.png_path.trim_end_matches(".png"));
    assert_eq!(decode(&plan.png).unwrap().data, vec![200u16; 12]);
    let done = finish_merge(&plan);
    assert_eq!(done.output_png_path, plan.png_path);
    assert_eq!(done.output_exr_path, plan.exr_path);
    assert_eq!((done.width, done.height), (2, 2));
    assert!(chrono::DateTime::parse_from_rfc3339(&done.merged_at).is_ok());
}

#[test]
fn plan_without_exr_and_with_errors() {
    let two = vec![
        input("a.png", Ok(png_of(&flat(1, 1, 10)))),
        input("b.png", Ok(png_of(&flat(1, 1, 13)))),
    ];
    let plan = plan_merge(&two, &Some("out".to_string()), false).unwrap();
    assert_eq!(plan.exr_path, None);
    assert_eq!(plan.merged.data, vec![11, 11, 11]);
    assert_eq!(plan.output_dir, "out");
    let mismatch = vec![
        input("a.png", Ok(png_of(&flat(1, 1, 10)))),
        input("b.png", Ok(png_of(&flat(2, 1, 10)))),
    ];
    assert_eq!(plan_merge(&mismatch, &None, false).err(), Some(HdrError::DimensionMismatch));
    let broken = vec![
        input("a.png", Ok(b"junk".to_vec())),
        input("b.png", Err("unreadable".to_string())),
    ];
    assert!(matches!(plan_merge(&broken, &None, false), Err(HdrError::Decode(m)) if m != "unreadable"));
    let no_parent = vec![
        input("/", Ok(png_of(&flat(1, 1, 10)))),
        input("b.png", Ok(png_of(&flat(1, 1, 10)))),
    ];
    assert_eq!(plan_merge(&no_parent, &None, false).err(), Some(HdrError::PathError));
}
