use feedview::photo::ImageFailure;
use feedview::run::{Action, Event, Report, Run, Stage};
use image::{DynamicImage, ImageOutputFormat};
use std::io::Cursor;

fn png_bytes() -> Vec<u8> {
    let mut buf = Cursor::new(Vec::new());
    DynamicImage::new_rgb8(1, 1).write_to(&mut buf, ImageOutputFormat::Png).unwrap();
    buf.into_inner()
}

fn names(v: &[&str]) -> Vec<String> {
    v.iter().map(|s| s.to_string()).collect()
}

const TWO_POSTS: &str = "<div class=\"v1Nh3\"><p class=\"C4VMK\">sunset</p><img src=\"https://cdn.example/1.jpg\"></div>\
<div class=\"v1Nh3\"><p class=\"C4VMK\">harbour</p><img src=\"https://cdn.example/2.jpg\"></div>";

#[test]
fn no_users_finishes_at_once() {
    let (run, acts) = Run::start(Vec::new());
    assert_eq!(run.stage(), Stage::Finished);
    assert_eq!(acts.len(), 1);
    assert!(matches!(&acts[0], Action::Finish(Ok(()))));
}

#[test]
fn first_profile_failure_ends_the_run() {
    let (mut run, acts) = Run::start(names(&["u1", "u2"]));
    assert_eq!(acts.len(), 1);
    assert!(matches!(&acts[0], Action::FetchProfile(u) if u == "u1"));
    let acts = run.step(Event::ProfileFailed("connection refused".to_string()));
    assert_eq!(acts.len(), 1);
    assert!(matches!(&acts[0], Action::Finish(Err(e)) if e == "connection refused"));
    assert_eq!(run.stage(), Stage::Finished);
    let acts = run.step(Event::ProfileFetched(TWO_POSTS.to_string()));
    assert!(acts.is_empty());
    assert_eq!(run.stage(), Stage::Finished);
}

#[test]
fn second_photo_failure_is_reported_and_run_succeeds() {
    let (mut run, acts) = Run::start(names(&["u1"]));
    assert!(matches!(&acts[0], Action::FetchProfile(u) if u == "u1"));

    let acts = run.step(Event::ProfileFetched(TWO_POSTS.to_string()));
    assert_eq!(acts.len(), 2);
    assert!(matches!(&acts[0], Action::PrintCaption(c) if c == "sunset"));
    assert!(matches!(&acts[1], Action::FetchPhoto(u) if u == "https://cdn.example/1.jpg"));
    assert_eq!(run.stage(), Stage::AwaitPhoto);

    let acts = run.step(Event::PhotoFetched(png_bytes()));
    assert_eq!(acts.len(), 1);
    assert!(matches!(&acts[0], Action::Render(_)));
    assert_eq!(run.stage(), Stage::AwaitRender);

    let acts = run.step(Event::Rendered);
    assert_eq!(acts.len(), 3);
    assert!(matches!(&acts[0], Action::PrintSeparator));
    assert!(matches!(&acts[1], Action::PrintCaption(c) if c == "harbour"));
    assert!(matches!(&acts[2], Action::FetchPhoto(u) if u == "https://cdn.example/2.jpg"));

    let acts = run.step(Event::PhotoFailed("404 Not Found".to_string()));
    assert_eq!(acts.len(), 2);
    assert!(matches!(&acts[0],
        Action::Report(Report::Photo(u, ImageFailure::Download(e)))
            if u == "https://cdn.example/2.jpg" && e == "404 Not Found"));
    assert!(matches!(&acts[1], Action::Finish(Ok(()))));
    assert_eq!(run.stage(), Stage::Finished);
}

#[test]
fn render_failure_still_prints_separator_and_moves_on() {
    let (mut run, _) = Run::start(names(&["a", "b"]));
    run.step(Event::ProfileFetched(TWO_POSTS.to_string()));
    run.step(Event::PhotoFetched(png_bytes()));
    let acts = run.step(Event::RenderFailed("not a terminal".to_string()));
    assert_eq!(acts.len(), 4);
    assert!(matches!(&acts[0], Action::Report(Report::Render(e)) if e == "not a terminal"));
    assert!(matches!(&acts[1], Action::PrintSeparator));
    assert!(matches!(&acts[2], Action::PrintCaption(c) if c == "harbour"));
    assert!(matches!(&acts[3], Action::FetchPhoto(_)));
}

#[test]
fn undecodable_photo_is_reported_and_next_user_follows() {
    let page = "<div class=\"v1Nh3\"><p class=\"C4VMK\">one</p><img src=\"https://cdn.example/1.jpg\"></div>";
    let (mut run, _) = Run::start(names(&["a", "b"]));
    run.step(Event::ProfileFetched(page.to_string()));
    let acts = run.step(Event::PhotoFetched(vec![9, 9, 9]));
    assert_eq!(acts.len(), 2);
    assert!(matches!(&acts[0],
        Action::Report(Report::Photo(u, ImageFailure::Decode(_))) if u == "https://cdn.example/1.jpg"));
    assert!(matches!(&acts[1], Action::FetchProfile(u) if u == "b"));
    assert_eq!(run.stage(), Stage::AwaitProfile);
}

#[test]
fn malformed_containers_and_missing_sources_are_reported() {
    let page = "<div class=\"v1Nh3\"><p class=\"C4VMK\">text only</p></div>\
<div class=\"v1Nh3\"><p class=\"C4VMK\">no source</p><img alt=\"x\"></div>";
    let (mut run, _) = Run::start(names(&["zoe"]));
    let acts = run.step(Event::ProfileFetched(page.to_string()));
    assert_eq!(acts.len(), 4);
    assert!(matches!(&acts[0], Action::Report(Report::Extraction(r)) if r.username == "zoe"));
    assert!(matches!(&acts[1], Action::PrintCaption(c) if c == "no source"));
    assert!(matches!(&acts[2], Action::Report(Report::Photo(u, ImageFailure::Download(_))) if u.is_empty()));
    assert!(matches!(&acts[3], Action::Finish(Ok(()))));
}

#[test]
fn unexpected_event_changes_nothing() {
    let (mut run, _) = Run::start(names(&["a"]));
    let acts = run.step(Event::Rendered);
    assert!(acts.is_empty());
    assert_eq!(run.stage(), Stage::AwaitProfile);
}
