use app_shell::content_type::get_mime_type;

#[test]
fn supported_suffixes_map_to_documented_types() {
    assert_eq!(get_mime_type("index.html"), "text/html; charset=utf-8");
    assert_eq!(get_mime_type("app.js"), "application/javascript; charset=utf-8");
    assert_eq!(get_mime_type("style.css"), "text/css; charset=utf-8");
    assert_eq!(get_mime_type("data.json"), "application/json; charset=utf-8");
    assert_eq!(get_mime_type("a.png"), "image/png");
    assert_eq!(get_mime_type("photo.jpg"), "image/jpeg");
    assert_eq!(get_mime_type("photo.jpeg"), "image/jpeg");
    assert_eq!(get_mime_type("anim.gif"), "image/gif");
    assert_eq!(get_mime_type("logo.svg"), "image/svg+xml");
    assert_eq!(get_mime_type("sound.ogg"), "audio/ogg");
    assert_eq!(get_mime_type("sound.m4a"), "audio/mp4");
    assert_eq!(get_mime_type("sound.mp3"), "audio/mpeg");
    assert_eq!(get_mime_type("sound.wav"), "audio/wav");
    assert_eq!(get_mime_type("clip.webm"), "video/webm");
    assert_eq!(get_mime_type("clip.mp4"), "video/mp4");
}

#[test]
fn unsupported_or_missing_suffix_is_binary() {
    assert_eq!(get_mime_type("data"), "application/octet-stream");
    assert_eq!(get_mime_type(""), "application/octet-stream");
    assert_eq!(get_mime_type("archive.zip"), "application/octet-stream");
    assert_eq!(get_mime_type("html"), "application/octet-stream");
}

#[test]
fn suffix_match_is_case_sensitive() {
    assert_eq!(get_mime_type("A.PNG"), "application/octet-stream");
    assert_eq!(get_mime_type("Index.HTML"), "application/octet-stream");
}

#[test]
fn nested_paths_use_the_last_suffix() {
    assert_eq!(get_mime_type("assets/img/icon.png"), "image/png");
    assert_eq!(get_mime_type("bundle.min.js"), "application/javascript; charset=utf-8");
}

#[test]
fn resolving_twice_gives_the_same_type() {
    for p in ["a.png", "data", "x.webm", "y.JPG"] {
        assert_eq!(get_mime_type(p), get_mime_type(p));
    }
}
