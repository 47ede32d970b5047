//! Tests of the reference-media extractor: data-URL parsing and the
//! per-reference parameter defaults.

use promptcraft::params::ParamValue;
use promptcraft::utils::{
    extract_base64_from_data_url, extract_reference_image, extract_reference_images,
    get_reference_image_params,
};

fn s(x: &str) -> String {
    x.to_string()
}

fn obj(entries: Vec<(&str, ParamValue)>) -> ParamValue {
    ParamValue::Obj(entries.into_iter().map(|(k, v)| (s(k), v)).collect())
}

#[test]
fn test_extract_base64_from_data_url() {
    // Valid PNG data URL
    let result = extract_base64_from_data_url("data:image/png;base64,iVBORw0KGgoAAAANS");
    assert!(result.is_ok());
    let (mime, data) = result.unwrap();
    assert_eq!(mime, "image/png");
    assert_eq!(data, "iVBORw0KGgoAAAANS");

    // Valid JPEG data URL
    let result = extract_base64_from_data_url("data:image/jpeg;base64,/9j/4AAQSkZJRg");
    assert!(result.is_ok());
    let (mime, data) = result.unwrap();
    assert_eq!(mime, "image/jpeg");
    assert_eq!(data, "/9j/4AAQSkZJRg");

    // Invalid: not a data URL
    let result = extract_base64_from_data_url("http://example.com/image.png");
    assert!(result.is_err());

    // Invalid: missing comma
    let result = extract_base64_from_data_url("data:image/png;base64");
    assert!(result.is_err());

    // Invalid: not base64 encoded
    let result = extract_base64_from_data_url("data:text/plain,hello");
    assert!(result.is_err());
}

#[test]
fn test_extract_reference_image() {
    // Valid reference image
    let params = obj(vec![(
        "reference_image",
        obj(vec![
            ("data", ParamValue::Str(s("data:image/png;base64,ABC123"))),
            ("strength", ParamValue::Dec(80)),
        ]),
    )]);
    let result = extract_reference_image(&params);
    assert!(result.is_some());
    let (mime, data) = result.unwrap();
    assert_eq!(mime, "image/png");
    assert_eq!(data, "ABC123");

    // No reference image
    let params = obj(vec![("other_param", ParamValue::Str(s("value")))]);
    let result = extract_reference_image(&params);
    assert!(result.is_none());
}

#[test]
fn test_get_reference_image_params() {
    // Full params
    let params = obj(vec![(
        "reference_image",
        obj(vec![
            ("strength", ParamValue::Dec(85)),
            ("denoisingStrength", ParamValue::Dec(65)),
            ("resizeMode", ParamValue::Str(s("fill"))),
            ("controlnetType", ParamValue::Str(s("canny"))),
            ("controlnetStrength", ParamValue::Dec(90)),
        ]),
    )]);
    let (strength, den, resize, cn_type, cn_str) = get_reference_image_params(&params);
    assert_eq!(strength, 85);
    assert_eq!(den, 65);
    assert_eq!(resize, "fill");
    assert_eq!(cn_type, Some(s("canny")));
    assert_eq!(cn_str, 90);

    // Default params
    let params = obj(vec![]);
    let (strength, den, resize, cn_type, cn_str) = get_reference_image_params(&params);
    assert_eq!(strength, 75);
    assert_eq!(den, 70);
    assert_eq!(resize, "crop");
    assert_eq!(cn_type, None);
    assert_eq!(cn_str, 100);
}

#[test]
fn reference_params_partial_override_changes_only_supplied_fields() {
    let params = obj(vec![(
        "reference_image",
        obj(vec![("strength", ParamValue::Dec(85))]),
    )]);
    let (strength, den, resize, cn_type, cn_str) = get_reference_image_params(&params);
    assert_eq!(strength, 85);
    assert_eq!(den, 70);
    assert_eq!(resize, "crop");
    assert_eq!(cn_type, None);
    assert_eq!(cn_str, 100);
}

#[test]
fn reference_params_scale_integral_nodes() {
    // An integral node is read wherever a fractional one is accepted.
    let params = obj(vec![(
        "reference_image",
        obj(vec![("controlnetStrength", ParamValue::Int(2))]),
    )]);
    let (_, _, _, _, cn_str) = get_reference_image_params(&params);
    assert_eq!(cn_str, 200);
}

#[test]
fn data_url_mime_defaults_between_prefix_and_semicolon() {
    // Nothing between the prefix and the first semicolon: the MIME type
    // defaults to image/png.
    let (mime, data) = extract_base64_from_data_url("data:;base64,QUJD").unwrap();
    assert_eq!(mime, "image/png");
    assert_eq!(data, "QUJD");

    let (mime, data) = extract_base64_from_data_url("data:image/webp;base64,xyz,rest").unwrap();
    assert_eq!(mime, "image/webp");
    assert_eq!(data, "xyz,rest");
}

#[test]
fn reference_images_reads_plural_array_and_falls_back_to_singular() {
    let plural = obj(vec![(
        "reference_images",
        ParamValue::Arr(vec![
            obj(vec![("data", ParamValue::Str(s("data:image/png;base64,AAA")))]),
            obj(vec![("data", ParamValue::Str(s("not a data url")))]),
            obj(vec![("data", ParamValue::Str(s("data:image/jpeg;base64,BBB")))]),
        ]),
    )]);
    let refs = extract_reference_images(&plural).unwrap();
    assert_eq!(refs.len(), 2);
    assert_eq!(refs[0], (s("image/png"), s("AAA")));
    assert_eq!(refs[1], (s("image/jpeg"), s("BBB")));

    let singular = obj(vec![(
        "reference_image",
        obj(vec![("data", ParamValue::Str(s("data:image/png;base64,CCC")))]),
    )]);
    let refs = extract_reference_images(&singular).unwrap();
    assert_eq!(refs.len(), 1);
    assert_eq!(refs[0], (s("image/png"), s("CCC")));

    let nothing = obj(vec![]);
    assert!(extract_reference_images(&nothing).is_none());
}

#[test]
fn data_url_prefix_repetitions_are_all_stripped() {
    let (mime, data) = extract_base64_from_data_url("data:data:image/png;base64,XYZ").unwrap();
    assert_eq!(mime, "image/png");
    assert_eq!(data, "XYZ");
}
