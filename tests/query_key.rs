use image_decrypt::error::ResolveError;
use image_decrypt::query::{cache_key, find_param, key_from_query};

#[test]
fn key_is_percent_decoded_image_parameter() {
    let r = key_from_query("image=http%3A%2F%2Fexample.test%2Fa.png");
    assert_eq!(r, Ok("http://example.test/a.png".to_string()));
}

#[test]
fn key_ignores_other_parameters() {
    let r = key_from_query("name=Tom&image=http://example.test/b.png&age=18");
    assert_eq!(r, Ok("http://example.test/b.png".to_string()));
}

#[test]
fn missing_image_parameter_is_rejected() {
    assert_eq!(key_from_query("name=Tom&age=18"), Err(ResolveError::Validation));
    assert_eq!(key_from_query(""), Err(ResolveError::Validation));
}

#[test]
fn empty_image_parameter_is_rejected() {
    assert_eq!(key_from_query("image="), Err(ResolveError::Validation));
    assert_eq!(cache_key(Some(String::new())), Err(ResolveError::Validation));
    assert_eq!(cache_key(None), Err(ResolveError::Validation));
}

#[test]
fn repeated_parameter_last_wins() {
    let r = key_from_query("image=first&image=second");
    assert_eq!(r, Ok("second".to_string()));
}

#[test]
fn find_param_on_parsed_pairs() {
    let pairs = vec![
        ("a".to_string(), "1".to_string()),
        ("image".to_string(), "x".to_string()),
        ("b".to_string(), "2".to_string()),
    ];
    assert_eq!(find_param(&pairs, "image"), Some("x".to_string()));
    assert_eq!(find_param(&pairs, "c"), None);
    assert_eq!(find_param(&Vec::new(), "image"), None);
}
