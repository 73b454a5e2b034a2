use sidecar_broker::branding::{branding_of, read_branding};
use sidecar_broker::logo::{
    can_encode, checked_logo_data_url, data_url_of, logo_data_url, logo_path_text,
};

#[test]
fn data_url_of_image_bytes() {
    assert_eq!(logo_data_url(b"hello"), "data:image/png;base64,aGVsbG8=");
    assert_eq!(logo_data_url(b"hi"), "data:image/png;base64,aGk=");
    assert_eq!(logo_data_url(b"abc"), "data:image/png;base64,YWJj");
    assert_eq!(logo_data_url(&[0xfb, 0xff, 0xbf]), "data:image/png;base64,+/+/");
}

#[test]
fn data_url_of_no_bytes_is_the_bare_prefix() {
    assert_eq!(logo_data_url(&[]), "data:image/png;base64,");
    assert_eq!(checked_logo_data_url(&[]), Some("data:image/png;base64,".to_string()));
}

#[test]
fn data_url_of_encoded_text() {
    assert_eq!(data_url_of("QUJD"), "data:image/png;base64,QUJD");
    assert_eq!(data_url_of(""), "data:image/png;base64,");
}

#[test]
fn checked_data_url_agrees_with_unchecked() {
    let png_magic = [0x89, b'P', b'N', b'G', 0x0d, 0x0a, 0x1a, 0x0a];
    assert_eq!(checked_logo_data_url(&png_magic), Some(logo_data_url(&png_magic)));
    assert_eq!(
        checked_logo_data_url(&png_magic),
        Some("data:image/png;base64,iVBORw0KGgo=".to_string())
    );
}

#[test]
fn lengths_that_can_be_encoded() {
    assert!(can_encode(0));
    assert!(can_encode(1));
    assert!(can_encode(3));
    assert!(can_encode(1 << 20));
    assert!(can_encode(usize::MAX / 4 * 3));
    assert!(!can_encode(usize::MAX / 4 * 3 + 1));
    assert!(!can_encode(usize::MAX));
}

#[test]
fn logo_path_has_forward_slashes() {
    assert_eq!(
        logo_path_text("C:\\Users\\me\\AppData\\app_logo.png"),
        "C:/Users/me/AppData/app_logo.png"
    );
    assert_eq!(logo_path_text("/home/me/.local/app_logo.png"), "/home/me/.local/app_logo.png");
    assert_eq!(logo_path_text(""), "");
    assert_eq!(logo_path_text("\\\\"), "//");
    assert_eq!(logo_path_text("d\u{e9}p\u{f4}t\\logo"), "d\u{e9}p\u{f4}t/logo");
}

#[test]
fn missing_branding_file_is_no_branding() {
    assert_eq!(read_branding(None), Ok(None));
}

#[test]
fn branding_file_is_parsed() {
    let mut theme = serde_json::Map::new();
    theme.insert("name".to_string(), serde_json::Value::from("Acme"));
    theme.insert("dark".to_string(), serde_json::Value::from(true));
    let expected = serde_json::Value::Object(theme);
    assert_eq!(
        read_branding(Some("{\"name\": \"Acme\", \"dark\": true}")),
        Ok(Some(expected))
    );
    assert_eq!(read_branding(Some("null")), Ok(Some(serde_json::Value::Null)));
    assert_eq!(read_branding(Some(" [1, 2] ")), Ok(Some(serde_json::Value::from(vec![1, 2]))));
}

#[test]
fn branding_file_that_is_no_json_is_an_error() {
    assert_eq!(
        read_branding(Some("")),
        Err("EOF while parsing a value at line 1 column 0".to_string())
    );
    assert_eq!(
        read_branding(Some("{\"name\": ")),
        Err("EOF while parsing a value at line 1 column 9".to_string())
    );
}

#[test]
fn branding_of_a_parse_result() {
    assert_eq!(
        branding_of(Ok(serde_json::Value::from("x"))),
        Ok(Some(serde_json::Value::from("x")))
    );
    assert_eq!(branding_of(Err("bad".to_string())), Err("bad".to_string()));
}
