use vstd::prelude::*;
use crate::page::{Page, page_containers};
use crate::post::{Container, ContainerView, Post, PostView, containers_view, post_of, posts_view, well_formed};

verus! {

/// A non-fatal report: a post container of this user's page lacked its
/// caption or its image.
#[derive(Clone, Debug, PartialEq, Eq)]
pub struct ExtractionReport {
    pub username: String,
}

/// The posts of a page, in container order, and one report per container
/// that could not be read.
#[derive(Clone, Debug, PartialEq, Eq)]
pub struct Extraction {
    pub posts: Vec<Post>,
    pub reports: Vec<ExtractionReport>,
}

/// The posts that a sequence of containers yields, in order.
pub open spec fn extracted_posts(cs: Seq<ContainerView>) -> Seq<PostView> {
    cs.filter_map(|c: ContainerView| post_of(c))
}

/// One entry, the user's name, for each container that yields no post.
pub open spec fn extraction_reports(username: Seq<char>, cs: Seq<ContainerView>) -> Seq<Seq<char>> {
    cs.filter_map(|c: ContainerView| if well_formed(c) { None } else { Some(username) })
}

pub open spec fn reports_view(rs: Seq<ExtractionReport>) -> Seq<Seq<char>> {
    rs.map_values(|r: ExtractionReport| r.username@)
}

/// Turns the containers of `username`'s page into posts, reporting each
/// container that lacks its caption or its image.
pub fn extract_posts(username: &str, containers: &Vec<Container>) -> (r: Extraction)
    ensures
        posts_view(r.posts@) == extracted_posts(containers_view(containers@)),
        reports_view(r.reports@) == extraction_reports(username@, containers_view(containers@)),
{
    let ghost cs = containers_view(containers@);
    let mut posts: Vec<Post> = Vec::new();
    let mut reports: Vec<ExtractionReport> = Vec::new();
    let mut i: usize = 0;
    while i < containers.len()
        invariant
            i <= containers.len(),
            cs == containers_view(containers@),
            posts_view(posts@) == extracted_posts(cs.take(i as int)),
            reports_view(reports@) == extraction_reports(username@, cs.take(i as int)),
        decreases containers.len() - i,
    {
        let c = &containers[i];
        proof {
            cs.lemma_filter_map_take_succ(|c: ContainerView| post_of(c), i as int);
            cs.lemma_filter_map_take_succ(
                |c: ContainerView| if well_formed(c) { None } else { Some(username@) },
                i as int,
            );
        }
        match (&c.caption, &c.image) {
            (Some(caption), Some(image)) => {
                let photo_url = match &image.src {
                    Some(u) => u.clone(),
                    None => String::new(),
                };
                let p = Post { caption: caption.clone(), photo_url };
                posts.push(p);
                assert(posts_view(posts@) =~= posts_view(posts@.drop_last()).push(p@));
            },
            _ => {
                let rep = ExtractionReport { username: username.to_string() };
                reports.push(rep);
                assert(reports_view(reports@) =~= reports_view(reports@.drop_last()).push(
                    username@,
                ));
            },
        }
        i = i + 1;
    }
    assert(cs.take(containers.len() as int) =~= cs);
    Extraction { posts, reports }
}

/// Parses `html`, the profile page of `username`, and extracts its posts.
pub fn extract(username: &str, html: String) -> (r: Extraction)
    ensures
        posts_view(r.posts@) == extracted_posts(page_containers(html@)),
        reports_view(r.reports@) == extraction_reports(username@, page_containers(html@)),
{
    let page = Page::parse(html);
    let containers = page.containers();
    extract_posts(username, &containers)
}

/// Extraction is a function of the page text alone: extracting twice from
/// the same text gives the same posts and the same reports.
pub proof fn lemma_extraction_repeatable(username: Seq<char>, first: Seq<char>, second: Seq<char>)
    requires
        first == second,
    ensures
        extracted_posts(page_containers(first)) == extracted_posts(page_containers(second)),
        extraction_reports(username, page_containers(first)) == extraction_reports(
            username,
            page_containers(second),
        ),
{
}

/// Extraction keeps container order and loses nothing: the posts are those
/// of the well-formed containers, in order, one for each of them, and there
/// is one report, naming the user, for each container that is not well formed.
pub proof fn lemma_extraction_counts(username: Seq<char>, cs: Seq<ContainerView>)
    ensures
        extracted_posts(cs) == cs.filter(|c: ContainerView| well_formed(c)).map_values(
            |c: ContainerView| post_of(c).unwrap(),
        ),
        extracted_posts(cs).len() == cs.filter(|c: ContainerView| well_formed(c)).len(),
        extraction_reports(username, cs).len() == cs.filter(|c: ContainerView| !well_formed(c)).len(),
        forall|i: int|
            0 <= i < extraction_reports(username, cs).len() ==> #[trigger] extraction_reports(
                username,
                cs,
            )[i] == username,
    decreases cs.len(),
{
    reveal(Seq::filter);
    if cs.len() > 0 {
        lemma_extraction_counts(username, cs.drop_last());
        let wf = |c: ContainerView| well_formed(c);
        let bad = |c: ContainerView| !well_formed(c);
        let pf = |c: ContainerView| post_of(c).unwrap();
        assert(cs.filter(wf) == if wf(cs.last()) {
            cs.drop_last().filter(wf).push(cs.last())
        } else {
            cs.drop_last().filter(wf)
        });
        assert(cs.filter(bad) == if bad(cs.last()) {
            cs.drop_last().filter(bad).push(cs.last())
        } else {
            cs.drop_last().filter(bad)
        });
        if wf(cs.last()) {
            assert(cs.drop_last().filter(wf).push(cs.last()).map_values(pf) =~= cs.drop_last().filter(
                wf,
            ).map_values(pf).push(pf(cs.last())));
        }
        let rs = extraction_reports(username, cs);
        let rs0 = extraction_reports(username, cs.drop_last());
        assert forall|i: int| 0 <= i < rs.len() implies #[trigger] rs[i] == username by {
            if i < rs0.len() {
                assert(rs[i] == rs0[i]);
            }
        }
    } else {
        assert(cs.filter(|c: ContainerView| well_formed(c)).map_values(
            |c: ContainerView| post_of(c).unwrap(),
        ) =~= Seq::empty());
    }
}

} // verus!
