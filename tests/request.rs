use slack_update::client::{App, HttpMethod, RequestBody};
use slack_update::config::Config;
use slack_update::error::Error;
use slack_update::photo::{decimal_string, image_part, FormPart, MultipartForm, Photo};
use slack_update::profile::{BodyField, FieldValue, Profile};

fn app(token: &str) -> App {
    App::from_config(Config::new(token.to_string()))
}

fn photo(image: &str, x: Option<u64>, y: Option<u64>, w: Option<u64>) -> Photo {
    Photo { image: image.to_string(), crop_x: x, crop_y: y, crop_w: w }
}

fn field(name: &str, value: FieldValue) -> BodyField {
    BodyField { name: name.to_string(), value }
}

fn text_part(name: &str, value: &str) -> FormPart {
    FormPart::Text { name: name.to_string(), value: value.to_string() }
}

#[test]
fn status_body_holds_only_set_fields() {
    let p = Profile::_new(Some("lunch".to_string()), None, Some(1700000000));
    assert_eq!(
        p.body_fields(),
        vec![
            field("status_text", FieldValue::Text("lunch".to_string())),
            field("status_expiration", FieldValue::Number(1700000000)),
        ]
    );
}

#[test]
fn status_body_with_every_field() {
    let p = Profile::_new(Some("away".to_string()), Some(":palm_tree:".to_string()), Some(0));
    assert_eq!(
        p.body_fields(),
        vec![
            field("status_text", FieldValue::Text("away".to_string())),
            field("status_emoji", FieldValue::Text(":palm_tree:".to_string())),
            field("status_expiration", FieldValue::Number(0)),
        ]
    );
}

#[test]
fn status_body_with_nothing_set_is_empty() {
    assert!(Profile::_new(None, None, None).body_fields().is_empty());
}

#[test]
fn status_body_keeps_empty_text() {
    let p = Profile::_new(None, Some(String::new()), None);
    assert_eq!(p.body_fields(), vec![field("status_emoji", FieldValue::Text(String::new()))]);
}

#[test]
fn status_request_goes_to_profile_set() {
    let p = Profile::_new(None, Some(":coffee:".to_string()), None);
    let r = app("xoxp-1").set_status_request(&p);
    assert_eq!(r.method, HttpMethod::Post);
    assert_eq!(r.url, "https://slack.com/api/users.profile.set");
    assert_eq!(r.authorization, "Bearer xoxp-1");
    assert_eq!(
        r.body,
        RequestBody::UpdateUser(vec![field("status_emoji", FieldValue::Text(":coffee:".to_string()))])
    );
}

#[test]
fn get_user_request_goes_to_profile_get() {
    let r = app("abc").get_user_request();
    assert_eq!(r.method, HttpMethod::Get);
    assert_eq!(r.url, "https://slack.com/api/users.profile.get");
    assert_eq!(r.authorization, "Bearer abc");
    assert_eq!(r.body, RequestBody::Empty);
}

#[test]
fn bearer_prefixes_token() {
    let a = app("secret-token");
    assert_eq!(a.bearer(), "Bearer secret-token");
    assert_eq!(a.token(), "secret-token");
}

#[test]
fn client_from_failed_load_fails() {
    let r = App::from_config_path(Err(Error::ConfigNotFound("no file".to_string())));
    assert_eq!(r, Err(Error::ConfigNotFound("no file".to_string())));
    let r = App::from_config_path(Ok(Config::new("t".to_string()))).unwrap();
    assert_eq!(r.token(), "t");
}

#[test]
fn png_photo_declares_image_png() {
    let form = photo("/home/me/pics/cat.png", None, None, None).form().unwrap();
    assert_eq!(
        form.parts,
        vec![FormPart::File {
            name: "image".to_string(),
            file_name: "cat.png".to_string(),
            mime: "image/png".to_string(),
        }]
    );
}

#[test]
fn crop_x_and_y_without_w() {
    let form = photo("me.jpg", Some(10), Some(20), None).form().unwrap();
    assert_eq!(form.parts.len(), 3);
    assert_eq!(form.parts[1], text_part("crop_x", "10"));
    assert_eq!(form.parts[2], text_part("crop_y", "20"));
    assert!(!form.parts.iter().any(|p| matches!(p, FormPart::Text { name, .. } if name == "crop_w")));
}

#[test]
fn update_form_appends_every_crop_part() {
    let form = photo("a.gif", Some(0), Some(7), Some(128)).update_form(MultipartForm::new());
    assert_eq!(
        form.parts,
        vec![text_part("crop_x", "0"), text_part("crop_y", "7"), text_part("crop_w", "128")]
    );
}

#[test]
fn update_form_without_crop_keeps_form() {
    let start = MultipartForm::new().part(text_part("other", "1"));
    let form = photo("a.gif", None, None, None).update_form(start.clone());
    assert_eq!(form, start);
}

#[test]
fn photo_without_extension_is_refused() {
    assert_eq!(photo("/tmp/picture", None, None, None).form(), Err(Error::MissingExtension));
}

#[test]
fn photo_without_file_name_is_refused() {
    assert_eq!(photo("/", None, None, None).form(), Err(Error::MissingFileName));
    assert_eq!(photo("", Some(1), None, None).form(), Err(Error::MissingFileName));
}

#[test]
fn dot_file_has_no_extension() {
    assert_eq!(photo("/tmp/.png", None, None, None).form(), Err(Error::MissingExtension));
}

#[test]
fn image_part_from_name_and_extension() {
    assert_eq!(
        image_part(Some("x.jpeg".to_string()), Some("jpeg".to_string())),
        Ok(FormPart::File {
            name: "image".to_string(),
            file_name: "x.jpeg".to_string(),
            mime: "image/jpeg".to_string(),
        })
    );
    assert_eq!(image_part(None, Some("png".to_string())), Err(Error::MissingFileName));
    assert_eq!(image_part(Some("x".to_string()), None), Err(Error::MissingExtension));
}

#[test]
fn photo_request_goes_to_set_photo() {
    let r = app("tok").set_photo_request(&photo("p.png", None, None, Some(50))).unwrap();
    assert_eq!(r.method, HttpMethod::Post);
    assert_eq!(r.url, "https://slack.com/api/users.setPhoto");
    assert_eq!(r.authorization, "Bearer tok");
    match r.body {
        RequestBody::Multipart(f) => assert_eq!(f.parts[1], text_part("crop_w", "50")),
        _ => panic!("expected a multipart body"),
    }
    assert_eq!(app("tok").set_photo_request(&photo("p", None, None, None)), Err(Error::MissingExtension));
}

#[test]
fn decimal_digits() {
    assert_eq!(decimal_string(0), "0");
    assert_eq!(decimal_string(9), "9");
    assert_eq!(decimal_string(10), "10");
    assert_eq!(decimal_string(1234567890), "1234567890");
    assert_eq!(decimal_string(u64::MAX), u64::MAX.to_string());
}
