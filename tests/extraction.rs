use feedview::extract::{extract, extract_posts};
use feedview::page::Page;
use feedview::post::{Container, ImageNode, Post};

fn post(caption: &str, url: &str) -> Post {
    Post { caption: caption.to_string(), photo_url: url.to_string() }
}

fn full(caption: &str, src: Option<&str>) -> Container {
    Container {
        caption: Some(caption.to_string()),
        image: Some(ImageNode { src: src.map(|s| s.to_string()) }),
    }
}

const PAGE: &str = "<html><body>\
<div class=\"v1Nh3\"><span class=\"C4VMK\">First <b>one</b></span><img src=\"https://cdn.example/a.jpg\"></div>\
<div class=\"v1Nh3\"><span class=\"C4VMK\">No picture</span></div>\
<div class=\"tile v1Nh3\"><p><span class=\"x C4VMK\">  spaced  </span></p><img alt=\"none\"></div>\
<div class=\"other\"><span class=\"C4VMK\">outside</span><img src=\"https://cdn.example/z.jpg\"></div>\
</body></html>";

#[test]
fn well_formed_and_malformed_containers_are_counted() {
    let containers = vec![
        full("a", Some("u1")),
        Container { caption: None, image: Some(ImageNode { src: Some("u2".to_string()) }) },
        full("c", None),
        Container { caption: Some("d".to_string()), image: None },
        full("e", Some("u5")),
    ];
    let r = extract_posts("alice", &containers);
    assert_eq!(r.posts, vec![post("a", "u1"), post("c", ""), post("e", "u5")]);
    assert_eq!(r.reports.len(), 2);
    assert!(r.reports.iter().all(|rep| rep.username == "alice"));
}

#[test]
fn caption_without_image_yields_one_report() {
    let containers = vec![Container { caption: Some("only text".to_string()), image: None }];
    let r = extract_posts("bob", &containers);
    assert!(r.posts.is_empty());
    assert_eq!(r.reports.len(), 1);
    assert_eq!(r.reports[0].username, "bob");
}

#[test]
fn no_containers_no_posts() {
    let r = extract_posts("carol", &Vec::new());
    assert!(r.posts.is_empty());
    assert!(r.reports.is_empty());
}

#[test]
fn page_containers_follow_document_order() {
    let page = Page::parse(PAGE.to_string());
    let cs = page.containers();
    assert_eq!(cs.len(), 3);
    assert_eq!(cs[0], full("First one", Some("https://cdn.example/a.jpg")));
    assert_eq!(cs[1], Container { caption: Some("No picture".to_string()), image: None });
    assert_eq!(cs[2], full("  spaced  ", None));
}

#[test]
fn extract_from_markup() {
    let r = extract("dave", PAGE.to_string());
    assert_eq!(r.posts, vec![post("First one", "https://cdn.example/a.jpg"), post("  spaced  ", "")]);
    assert_eq!(r.reports.len(), 1);
    assert_eq!(r.reports[0].username, "dave");
}

#[test]
fn markup_with_caption_but_no_image() {
    let html = "<div class=\"v1Nh3\"><div class=\"C4VMK\">hello</div></div>";
    let r = extract("erin", html.to_string());
    assert!(r.posts.is_empty());
    assert_eq!(r.reports.len(), 1);
    assert_eq!(r.reports[0].username, "erin");
}

#[test]
fn extraction_is_repeatable() {
    let first = extract("frank", PAGE.to_string());
    let second = extract("frank", PAGE.to_string());
    assert_eq!(first, second);
}

#[test]
fn empty_markup_has_no_posts() {
    let r = extract("gina", String::new());
    assert!(r.posts.is_empty());
    assert!(r.reports.is_empty());
}
