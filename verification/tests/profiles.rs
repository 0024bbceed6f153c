use link_preview::profiles::youtube::{
    mentions_youtube, store_image, store_image_in, YouTubeProfile, YOUTUBE_IMAGE_STORAGE_DOMAIN,
};
use link_preview::profiles::{Profile, ProfileExt, Registry};
use link_preview::LinkPreview;
use scraper::Html;
use std::str::from_utf8;
use url::Url;

const YOUTUBE_VIDEO_HTML: &[u8] = "<!DOCTYPE html>
<html lang=\"en\">
<head>
  <title>Google \u{2014} Year in Search 2024 - YouTube</title>
  <meta name=\"title\" content=\"Google \u{2014} Year in Search 2024\">
  <meta name=\"description\" content=\"This year, we're celebrating the Breakout Searches of 2024.\">
  <link rel=\"canonical\" href=\"https://www.youtube.com/watch?v=61JHONRXhjs\">
  <link rel=\"image_src\" href=\"https://i.ytimg.com/vi/61JHONRXhjs/maxresdefault.jpg\">
  <meta property=\"og:site_name\" content=\"YouTube\">
  <meta property=\"og:url\" content=\"https://www.youtube.com/watch?v=61JHONRXhjs\">
  <meta property=\"og:title\" content=\"Google \u{2014} Year in Search 2024\">
  <meta property=\"og:image\" content=\"https://i.ytimg.com/vi/61JHONRXhjs/maxresdefault.jpg\">
  <meta property=\"og:description\" content=\"This year, we're celebrating the Breakout Searches of 2024. From iconic performances, to history-making breakthroughs, see the moments that shaped our year i...\">
  <meta name=\"twitter:title\" content=\"Google \u{2014} Year in Search 2024\">
</head>
<body></body>
</html>
"
.as_bytes();

const OWN_DOMAIN_HTML: &str = r#"<!DOCTYPE html>
<html>
<head>
  <title>A video</title>
  <meta property="og:title" content="A video">
  <meta property="og:description" content="What the video shows">
  <meta property="og:image" content="https://www.youtube.com/vi/ID/maxresdefault.jpg?sqp=abc#frame">
  <link rel="canonical" href="https://www.youtube.com/watch?v=ID">
</head>
<body></body>
</html>
"#;

const NO_IMAGE_HTML: &str = r#"<!DOCTYPE html>
<html>
<head>
  <title>A channel</title>
  <meta property="og:image" content="not a url">
  <link rel="canonical" href="https://www.youtube.com/@channel">
</head>
<body><p>About this channel</p></body>
</html>
"#;

fn url(text: &str) -> Url {
    Url::parse(text).unwrap()
}

#[test]
fn test_youtube_profile() {
    let html = from_utf8(YOUTUBE_VIDEO_HTML).expect("Failed to parse YouTube HTML");
    let html = Html::parse_document(html);

    let url = Url::parse("https://youtu.be/61JHONRXhjs").expect("Failed to parse URL");
    assert!(YouTubeProfile::fits(&url));

    let link_preview = YouTubeProfile::extract(&html);
    assert!(link_preview.is_some());

    let preview = link_preview.unwrap();

    assert_eq!(
        preview.title,
        Some("Google — Year in Search 2024".to_string())
    );

    assert_eq!(
        preview.description,
        Some("This year, we're celebrating the Breakout Searches of 2024. From iconic performances, to history-making breakthroughs, see the moments that shaped our year i...".to_string())
    );

    assert_eq!(
        preview.image_url.map(|u| u.to_string()),
        Some("https://i.ytimg.com/vi/61JHONRXhjs/maxresdefault.jpg".to_string())
    );

    assert_eq!(preview.domain, Some("www.youtube.com".to_string()));
}

#[test]
fn youtube_fits_its_own_hosts() {
    assert!(YouTubeProfile::fits(&url("https://www.youtube.com/watch?v=ID")));
    assert!(YouTubeProfile::fits(&url("https://youtube.com/watch?v=ID")));
    assert!(YouTubeProfile::fits(&url("https://m.youtube.com/watch?v=ID")));
    assert!(YouTubeProfile::fits(&url("https://youtu.be/ID")));
    assert!(YouTubeProfile::fits(&url("http://WWW.YouTube.COM/")));
}

#[test]
fn youtube_does_not_fit_other_hosts() {
    assert!(!YouTubeProfile::fits(&url("https://vimeo.com/1")));
    assert!(!YouTubeProfile::fits(&url("https://example.com/youtube.com")));
    assert!(!YouTubeProfile::fits(&url("https://example.com/?next=youtu.be")));
    assert!(!YouTubeProfile::fits(&url("https://youtube.co/")));
    assert!(!YouTubeProfile::fits(&url("https://127.0.0.1/")));
}

#[test]
fn youtube_does_not_fit_a_url_without_host() {
    assert!(!YouTubeProfile::fits(&url("mailto:someone@youtube.com")));
    assert!(!YouTubeProfile::fits(&url("data:text/plain,youtu.be")));
}

#[test]
fn youtube_fits_any_host_that_mentions_it() {
    assert!(YouTubeProfile::fits(&url("https://youtube.com.example.org/")));
    assert!(YouTubeProfile::fits(&url("https://notyoutu.be/")));
}

#[test]
fn mentions_youtube_looks_for_either_domain() {
    assert!(mentions_youtube("www.youtube.com"));
    assert!(mentions_youtube("youtu.be"));
    assert!(!mentions_youtube("youtube"));
    assert!(!mentions_youtube("youtu.b"));
    assert!(!mentions_youtube(""));
}

#[test]
fn image_storage_is_on_its_own_host() {
    assert_eq!(YOUTUBE_IMAGE_STORAGE_DOMAIN, "https://i.ytimg.com");
}

#[test]
fn store_image_in_sets_the_path_on_the_given_storage() {
    let storage = url(YOUTUBE_IMAGE_STORAGE_DOMAIN);
    let stored = store_image_in(storage, &url("https://www.youtube.com/vi/ID/0.jpg?a=b")).unwrap();

    assert_eq!(stored.host_str(), Some("i.ytimg.com"));
    assert_eq!(stored.as_str(), "https://i.ytimg.com/vi/ID/0.jpg");
}

#[test]
fn store_image_in_keeps_what_the_storage_has_besides_its_path() {
    let storage = url("https://user@cdn.example:8443/old/path?size=1#top");
    let stored = store_image_in(storage, &url("https://www.youtube.com/vi/ID/0.jpg")).unwrap();

    assert_eq!(stored.host_str(), Some("cdn.example"));
    assert_eq!(
        stored.as_str(),
        "https://user@cdn.example:8443/vi/ID/0.jpg?size=1#top"
    );
}

#[test]
fn store_image_keeps_the_path_and_nothing_else() {
    let stored = store_image(&url(
        "http://user@www.youtube.com:8080/vi/ID/maxresdefault.jpg?sqp=abc#frame",
    ));

    assert_eq!(
        stored.unwrap().as_str(),
        "https://i.ytimg.com/vi/ID/maxresdefault.jpg"
    );
}

#[test]
fn store_image_of_a_url_without_path_is_the_storage_root() {
    let stored = store_image(&url("https://www.youtube.com"));

    assert_eq!(stored.unwrap().as_str(), "https://i.ytimg.com/");
}

#[test]
fn store_image_keeps_an_encoded_path_as_it_is() {
    let stored = store_image(&url("https://www.youtube.com/vi/a%20b/c%2Fd.jpg"));

    assert_eq!(stored.unwrap().as_str(), "https://i.ytimg.com/vi/a%20b/c%2Fd.jpg");
}

#[test]
fn store_image_gives_a_path_without_root_a_leading_slash() {
    let image = url("data:image/png;base64,AAAA");
    assert_eq!(image.path(), "image/png;base64,AAAA");

    let stored = store_image(&image).unwrap();

    assert_eq!(stored.host_str(), Some("i.ytimg.com"));
    assert_eq!(stored.path(), "/image/png;base64,AAAA");
}

#[test]
fn store_image_takes_the_storage_host_whatever_the_image_host() {
    for image in [
        "https://www.youtube.com/vi/ID/0.jpg",
        "https://127.0.0.1/vi/ID/0.jpg",
        "ftp://files.example.org/vi/ID/0.jpg",
        "mailto:someone@example.com",
    ] {
        let stored = store_image(&url(image)).unwrap();

        assert_eq!(stored.host_str(), Some("i.ytimg.com"));
        assert_eq!(stored.scheme(), "https");
    }
}

#[test]
fn profile_rewrites_the_image_host_and_preserves_the_path() {
    let html = Html::parse_document(OWN_DOMAIN_HTML);
    let generic = LinkPreview::from(&html);
    assert_eq!(
        generic.image_url_str().unwrap(),
        "https://www.youtube.com/vi/ID/maxresdefault.jpg?sqp=abc#frame"
    );

    let source = url("https://www.youtube.com/watch?v=ID");
    assert!(YouTubeProfile::fits(&source));
    let preview = YouTubeProfile::extract(&html).unwrap();
    let image = preview.image_url.unwrap();

    assert_eq!(image.host_str(), Some("i.ytimg.com"));
    assert_eq!(image.path(), "/vi/ID/maxresdefault.jpg");
    assert_eq!(image.as_str(), "https://i.ytimg.com/vi/ID/maxresdefault.jpg");
}

#[test]
fn profile_leaves_the_other_fields_untouched() {
    let html = Html::parse_document(OWN_DOMAIN_HTML);
    let generic = LinkPreview::from(&html);
    let preview = YouTubeProfile::extract(&html).unwrap();

    assert_eq!(preview.title, generic.title);
    assert_eq!(preview.description, generic.description);
    assert_eq!(preview.domain, generic.domain);
    assert_eq!(preview.title.unwrap(), "A video");
    assert_eq!(preview.description.unwrap(), "What the video shows");
    assert_eq!(preview.domain.unwrap(), "www.youtube.com");
}

#[test]
fn profile_without_image_gives_the_generic_preview() {
    let html = Html::parse_document(NO_IMAGE_HTML);
    let preview = YouTubeProfile::extract(&html).unwrap();

    assert_eq!(preview.title.unwrap(), "A channel");
    assert_eq!(preview.description.unwrap(), "About this channel");
    assert_eq!(preview.domain.unwrap(), "www.youtube.com");
    assert_eq!(preview.image_url, None);
}

#[test]
fn registered_profile_behaves_like_the_profile() {
    let html = Html::parse_document(OWN_DOMAIN_HTML);

    assert!(Profile::YouTube.fits(&url("https://youtu.be/ID")));
    assert!(!Profile::YouTube.fits(&url("https://example.com/")));
    assert_eq!(
        Profile::YouTube.extract(&html).unwrap().image_url_str().unwrap(),
        "https://i.ytimg.com/vi/ID/maxresdefault.jpg"
    );
}

#[test]
fn registry_selects_the_first_profile_that_fits() {
    let mut registry = Registry::new();
    assert!(registry.select(&url("https://youtu.be/ID")).is_none());

    registry.register(Profile::YouTube);
    registry.register(Profile::YouTube);

    assert!(matches!(
        registry.select(&url("https://youtu.be/ID")),
        Some(Profile::YouTube)
    ));
    assert!(registry.select(&url("https://example.com/")).is_none());
}

#[test]
fn registry_extracts_with_the_profile_that_fits() {
    let html = Html::parse_document(OWN_DOMAIN_HTML);
    let mut registry = Registry::new();
    registry.register(Profile::YouTube);

    let source = url("https://www.youtube.com/watch?v=ID");
    let preview = registry.extract(&html, Some(&source)).unwrap();

    assert_eq!(
        preview.image_url_str().unwrap(),
        "https://i.ytimg.com/vi/ID/maxresdefault.jpg"
    );
    assert_eq!(preview.title.unwrap(), "A video");
}

#[test]
fn registry_extracts_generically_where_no_profile_fits() {
    let html = Html::parse_document(OWN_DOMAIN_HTML);
    let mut registry = Registry::new();
    registry.register(Profile::YouTube);

    let source = url("https://example.com/watch?v=ID");
    let preview = registry.extract(&html, Some(&source)).unwrap();

    assert_eq!(
        preview.image_url_str().unwrap(),
        "https://www.youtube.com/vi/ID/maxresdefault.jpg?sqp=abc#frame"
    );
}

#[test]
fn registry_extracts_generically_without_a_source_url() {
    let html = Html::parse_document(OWN_DOMAIN_HTML);
    let mut registry = Registry::new();
    registry.register(Profile::YouTube);

    let preview = registry.extract(&html, None).unwrap();

    assert_eq!(
        preview.image_url_str().unwrap(),
        "https://www.youtube.com/vi/ID/maxresdefault.jpg?sqp=abc#frame"
    );
    assert_eq!(preview.domain.unwrap(), "www.youtube.com");
}

#[test]
fn empty_registry_extracts_generically() {
    let html = Html::parse_document(OWN_DOMAIN_HTML);
    let registry = Registry::new();

    let source = url("https://www.youtube.com/watch?v=ID");
    let preview = registry.extract(&html, Some(&source)).unwrap();

    assert_eq!(
        preview.image_url_str().unwrap(),
        "https://www.youtube.com/vi/ID/maxresdefault.jpg?sqp=abc#frame"
    );
}

struct ExampleProfile {}

impl ProfileExt for ExampleProfile {
    fn fits(url: &Url) -> bool {
        url.domain() == Some("example.com")
    }

    fn extract(html: &Html) -> Option<LinkPreview> {
        let mut preview = LinkPreview::from(html);
        preview.title = Some("An example".to_string());
        Some(preview)
    }
}

#[test]
fn profiles_can_be_written_outside_the_library() {
    let html = Html::parse_document(OWN_DOMAIN_HTML);

    assert!(ExampleProfile::fits(&url("https://example.com/a")));
    assert!(!ExampleProfile::fits(&url("https://www.youtube.com/a")));

    let preview = ExampleProfile::extract(&html).unwrap();
    assert_eq!(preview.title.unwrap(), "An example");
    assert_eq!(preview.domain.unwrap(), "www.youtube.com");
}
