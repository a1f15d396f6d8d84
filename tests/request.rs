use image_resizer::request::{derived_key, is_permitted, ImageResizeRequest, ParseError, Resolution};
use url::Url;

fn path_of(uri: &str) -> String {
    Url::parse(uri).expect("valid uri").path().to_string()
}

#[test]
fn when_proper_path_and_no_resolutions_limit() {
    let path = path_of("https://some-domain.com/200x300/key.png");
    let image_request = ImageResizeRequest::parse(&path, &None).expect("url parsed");

    assert_eq!(
        image_request,
        ImageResizeRequest {
            image_key: "key.png".into(),
            resolution: Resolution { width: 200, height: 300 }
        }
    );
}

#[test]
fn when_proper_path_and_supported_resolution() {
    let allowed = Some(vec![Resolution { width: 200, height: 300 }]);
    let path = path_of("https://some-domain.com/200x300/key.png");
    let image_request = ImageResizeRequest::parse(&path, &allowed).expect("url parsed");

    assert_eq!(
        image_request,
        ImageResizeRequest {
            image_key: "key.png".into(),
            resolution: Resolution { width: 200, height: 300 }
        }
    );
}

#[test]
fn when_proper_path_and_unsupported_resolution() {
    let allowed = Some(vec![Resolution { width: 400, height: 500 }]);
    let path = path_of("https://some-domain.com/200x300/key.png");
    let image_request_result = ImageResizeRequest::parse(&path, &allowed);

    assert!(matches!(image_request_result, Err(ParseError::UnsupportedResolution)));
}

#[test]
fn when_not_proper_path() {
    let path = path_of("https://some-domain.com/2srs00x310srs0/key.png");

    assert!(ImageResizeRequest::parse(&path, &None).is_err());
}

#[test]
fn prefix_before_marker_is_discarded() {
    let r = ImageResizeRequest::parse("dir/200x300/key", &None).expect("parsed");
    assert_eq!(r.image_key, "key");
    assert_eq!(r.resolution, Resolution { width: 200, height: 300 });
}

#[test]
fn shapeless_path_is_malformed() {
    assert_eq!(ImageResizeRequest::parse("20ts1300/keytt", &None), Err(ParseError::Malformed));
    assert_eq!(ImageResizeRequest::parse("", &None), Err(ParseError::Malformed));
    assert_eq!(ImageResizeRequest::parse("/x300/k", &None), Err(ParseError::Malformed));
    assert_eq!(ImageResizeRequest::parse("/200x/k", &None), Err(ParseError::Malformed));
    assert_eq!(ImageResizeRequest::parse("/200x300", &None), Err(ParseError::Malformed));
}

#[test]
fn unlisted_resolution_is_unsupported_not_malformed() {
    let allowed = Some(vec![Resolution { width: 200, height: 300 }]);
    assert_eq!(
        ImageResizeRequest::parse("/400x500/key", &allowed),
        Err(ParseError::UnsupportedResolution)
    );
    assert_eq!(ImageResizeRequest::parse("/200x300/key", &allowed).map(|r| r.resolution), Ok(Resolution { width: 200, height: 300 }));
}

#[test]
fn empty_allow_list_restricts_nothing() {
    let allowed = Some(Vec::new());
    let r = ImageResizeRequest::parse("/1x2/k", &allowed).expect("parsed");
    assert_eq!(r.resolution, Resolution { width: 1, height: 2 });
    assert!(is_permitted(&allowed, Resolution { width: 9, height: 9 }));
    assert!(is_permitted(&None, Resolution { width: 9, height: 9 }));
    assert!(!is_permitted(&Some(vec![Resolution { width: 9, height: 8 }]), Resolution { width: 9, height: 9 }));
}

#[test]
fn dimension_bounds() {
    let r = ImageResizeRequest::parse("/65535x0/k", &None).expect("parsed");
    assert_eq!(r.resolution, Resolution { width: 65535, height: 0 });
    assert_eq!(
        ImageResizeRequest::parse("/65536x1/k", &None),
        Err(ParseError::DimensionOutOfRange)
    );
    assert_eq!(
        ImageResizeRequest::parse("/1x99999999999999999999/k", &None),
        Err(ParseError::DimensionOutOfRange)
    );
    let lead = ImageResizeRequest::parse("/007x08/k", &None).expect("parsed");
    assert_eq!(lead.resolution, Resolution { width: 7, height: 8 });
}

#[test]
fn empty_key_is_refused() {
    assert_eq!(ImageResizeRequest::parse("/10x10/", &None), Err(ParseError::EmptyKey));
}

#[test]
fn key_is_taken_verbatim() {
    let r = ImageResizeRequest::parse("/10x20/a/b/%20c.png?x", &None).expect("parsed");
    assert_eq!(r.image_key, "a/b/%20c.png?x");
    let first = ImageResizeRequest::parse("/1x2/3x4/k", &None).expect("parsed");
    assert_eq!(first.resolution, Resolution { width: 1, height: 2 });
    assert_eq!(first.image_key, "3x4/k");
    let later = ImageResizeRequest::parse("/ax/1x2/k", &None).expect("parsed");
    assert_eq!(later.image_key, "k");
}

#[test]
fn derived_key_format() {
    let res = Resolution { width: 200, height: 125 };
    assert_eq!(derived_key(res, "a.png"), "200x125/a.png");
    assert_eq!(derived_key(res, "a.png"), derived_key(res, "a.png"));
    assert_eq!(derived_key(Resolution { width: 0, height: 65535 }, "d/k"), "0x65535/d/k");
    let req = ImageResizeRequest::parse("/200x125/a.png", &None).expect("parsed");
    assert_eq!(req.storage_key(), "200x125/a.png");
}

#[test]
fn derived_key_parses_back() {
    let res = Resolution { width: 31, height: 4 };
    let key = derived_key(res, "x/y.jpg");
    let back = ImageResizeRequest::parse(&format!("/{}", key), &None).expect("parsed");
    assert_eq!(back.resolution, res);
    assert_eq!(back.image_key, "x/y.jpg");
}

#[test]
fn describe_request() {
    let req = ImageResizeRequest::parse("/200x300/key.png", &None).expect("parsed");
    assert_eq!(req.describe(), "requested key.png with 200x300");
}
