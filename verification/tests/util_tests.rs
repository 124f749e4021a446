use tidal_client::errors::TidalError;
use tidal_client::util::{
    contains_sub, generate_filename, sanitize_filename, sanitize_url, trim_last_char,
    which_filetype,
};

#[test]
fn sanitize_url_encodes_spaces_and_strips_quotes() {
    assert_eq!(sanitize_url("http://x/y z\"q".to_string()), "http://x/y%20zq");
    assert_eq!(sanitize_url("a 'b' \"c\"".to_string()), "a%20b%20c");
    assert_eq!(sanitize_url("clean".to_string()), "clean");
    assert_eq!(sanitize_url(String::new()), "");
}

#[test]
fn sanitize_filename_strips_quotes_and_underscores_spaces() {
    assert_eq!(sanitize_filename("my \"song\" title".to_string()), "my_song_title");
    assert_eq!(sanitize_filename("plain".to_string()), "plain");
    assert_eq!(sanitize_filename(String::new()), "");
}

#[test]
fn trim_last_char_drops_one_character() {
    assert_eq!(trim_last_char("abc="), "abc");
    assert_eq!(trim_last_char("a"), "");
    assert_eq!(trim_last_char(""), "");
}

#[test]
fn contains_sub_finds_needles() {
    assert!(contains_sub("http://host/track.flac", "flac"));
    assert!(contains_sub("abc", ""));
    assert!(contains_sub("abc", "abc"));
    assert!(!contains_sub("abc", "abcd"));
    assert!(!contains_sub("http://host/track.flac", "mp4"));
}

#[test]
fn which_filetype_prefers_flac() {
    assert_eq!(which_filetype("http://host/track.flac".to_string()), "flac");
    assert_eq!(which_filetype("http://host/video.mp4".to_string()), "mp4");
    assert_eq!(which_filetype("http://host/a.flac.mp4".to_string()), "flac");
    assert_eq!(which_filetype("http://host/other.wav".to_string()), ".mp4");
}

#[test]
fn generated_filenames_carry_no_spaces_or_quotes() {
    let name = generate_filename("my song".to_string(), "flac".to_string());
    assert!(name.starts_with("my_song_"));
    assert!(name.ends_with(".flac"));
    assert!(!name.contains(' '));
    assert!(!name.contains('"'));
}

#[test]
fn tidal_error_keeps_its_message() {
    let e = TidalError::new("No countryCode found".to_string());
    assert_eq!(e.message(), "No countryCode found");
}
