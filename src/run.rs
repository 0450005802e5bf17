use vstd::prelude::*;
use image::DynamicImage;
use crate::extract::{ExtractionReport, extract, extracted_posts, extraction_reports, reports_view};
use crate::page::page_containers;
use crate::photo::{ImageFailure, check_photo_url, decode_download, decodes};
use crate::post::{Post, PostView, posts_view};

verus! {

/// What a run waits for next.
#[derive(Clone, Copy, Debug, PartialEq, Eq, Structural)]
pub enum Stage {
    /// The page of the current user.
    AwaitProfile,
    /// The bytes of the current post's photo.
    AwaitPhoto,
    /// The outcome of painting the current post's photo.
    AwaitRender,
    /// Nothing: the run is over.
    Finished,
}

/// What the outside world reports back to a run.
#[derive(Debug)]
pub enum Event {
    /// The current user's page was fetched; its markup.
    ProfileFetched(String),
    /// The current user's page could not be fetched; why.
    ProfileFailed(String),
    /// The current post's photo was downloaded; its bytes.
    PhotoFetched(Vec<u8>),
    /// The current post's photo could not be downloaded; why.
    PhotoFailed(String),
    /// The current post's photo was painted.
    Rendered,
    /// The current post's photo could not be painted; why.
    RenderFailed(String),
}

/// A non-fatal failure, for the error channel.
#[derive(Debug)]
pub enum Report {
    /// A post container of a user's page lacked its caption or its image.
    Extraction(ExtractionReport),
    /// The photo at this address could not be fetched or decoded.
    Photo(String, ImageFailure),
    /// A photo could not be painted; why.
    Render(String),
}

/// What a run asks the outside world to do, in order.
#[derive(Debug)]
pub enum Action {
    FetchProfile(String),
    PrintCaption(String),
    FetchPhoto(String),
    Render(DynamicImage),
    PrintSeparator,
    Report(Report),
    /// The run is over, with the first profile fetch failure if there was one.
    Finish(Result<(), String>),
}

pub enum ActionView {
    FetchProfile(Seq<char>),
    PrintCaption(Seq<char>),
    FetchPhoto(Seq<char>),
    Render,
    PrintSeparator,
    ExtractionFailed(Seq<char>),
    DownloadFailed(Seq<char>),
    DecodeFailed(Seq<char>),
    RenderFailed(Seq<char>),
    Finish(Result<(), Seq<char>>),
}

impl View for Action {
    type V = ActionView;

    open spec fn view(&self) -> ActionView {
        match self {
            Action::FetchProfile(u) => ActionView::FetchProfile(u@),
            Action::PrintCaption(c) => ActionView::PrintCaption(c@),
            Action::FetchPhoto(u) => ActionView::FetchPhoto(u@),
            Action::Render(_) => ActionView::Render,
            Action::PrintSeparator => ActionView::PrintSeparator,
            Action::Report(Report::Extraction(r)) => ActionView::ExtractionFailed(r.username@),
            Action::Report(Report::Photo(u, ImageFailure::Download(_))) => ActionView::DownloadFailed(u@),
            Action::Report(Report::Photo(u, ImageFailure::Decode(_))) => ActionView::DecodeFailed(u@),
            Action::Report(Report::Render(e)) => ActionView::RenderFailed(e@),
            Action::Finish(Ok(())) => ActionView::Finish(Ok(())),
            Action::Finish(Err(e)) => ActionView::Finish(Err(e@)),
        }
    }
}

pub open spec fn actions_view(acts: Seq<Action>) -> Seq<ActionView> {
    acts.map_values(|a: Action| a@)
}

/// The state of a run over a list of users: the user whose page is being
/// shown, that page's posts, and the post whose photo is being shown.
pub struct RunView {
    pub usernames: Seq<Seq<char>>,
    pub user: int,
    pub posts: Seq<PostView>,
    pub next: int,
    pub stage: Stage,
}

/// The first post, from `k` on, that has a photo address; the number of
/// posts if none has.
pub open spec fn first_photo_from(posts: Seq<PostView>, k: int) -> int
    decreases posts.len() - k,
{
    if k >= posts.len() {
        posts.len() as int
    } else if posts[k].photo_url.len() > 0 {
        k
    } else {
        first_photo_from(posts, k + 1)
    }
}

/// Showing posts from `k` on: each caption is printed; a post without a
/// photo address is reported as a failed download, and the first post with
/// one has its photo asked for.
pub open spec fn showing_actions(posts: Seq<PostView>, k: int) -> Seq<ActionView>
    decreases posts.len() - k,
{
    if k >= posts.len() {
        Seq::empty()
    } else if posts[k].photo_url.len() > 0 {
        seq![ActionView::PrintCaption(posts[k].caption), ActionView::FetchPhoto(posts[k].photo_url)]
    } else {
        seq![
            ActionView::PrintCaption(posts[k].caption),
            ActionView::DownloadFailed(posts[k].photo_url),
        ] + showing_actions(posts, k + 1)
    }
}

/// Once a user's posts are all shown: the next user's page is asked for, or
/// the run ends in success after the last user.
pub open spec fn after_user(s: RunView) -> (RunView, Seq<ActionView>) {
    if s.user + 1 < s.usernames.len() {
        (
            RunView {
                usernames: s.usernames,
                user: s.user + 1,
                posts: Seq::empty(),
                next: 0,
                stage: Stage::AwaitProfile,
            },
            seq![ActionView::FetchProfile(s.usernames[s.user + 1])],
        )
    } else {
        (
            RunView {
                usernames: s.usernames,
                user: s.user,
                posts: s.posts,
                next: s.next,
                stage: Stage::Finished,
            },
            seq![ActionView::Finish(Ok(()))],
        )
    }
}

/// Going on with the posts of the current user from post `k`.
pub open spec fn continue_from(s: RunView, k: int) -> (RunView, Seq<ActionView>) {
    let j = first_photo_from(s.posts, k);
    let shown = showing_actions(s.posts, k);
    if j < s.posts.len() {
        (
            RunView {
                usernames: s.usernames,
                user: s.user,
                posts: s.posts,
                next: j,
                stage: Stage::AwaitPhoto,
            },
            shown,
        )
    } else {
        (after_user(s).0, shown + after_user(s).1)
    }
}

/// Where a run stands after event `ev`, and what it asks for. A profile
/// fetch failure ends the run with that failure; every failure of a post is
/// reported and the run goes on with the next post. An event that the run
/// does not wait for changes nothing.
pub open spec fn step_spec(s: RunView, ev: Event) -> (RunView, Seq<ActionView>) {
    let unchanged = (s, Seq::<ActionView>::empty());
    match s.stage {
        Stage::AwaitProfile => match ev {
            Event::ProfileFetched(html) => {
                let cs = page_containers(html@);
                let reports = extraction_reports(s.usernames[s.user], cs).map_values(
                    |u: Seq<char>| ActionView::ExtractionFailed(u),
                );
                let t = RunView {
                    usernames: s.usernames,
                    user: s.user,
                    posts: extracted_posts(cs),
                    next: 0,
                    stage: s.stage,
                };
                (continue_from(t, 0).0, reports + continue_from(t, 0).1)
            },
            Event::ProfileFailed(e) => (
                RunView {
                    usernames: s.usernames,
                    user: s.user,
                    posts: s.posts,
                    next: s.next,
                    stage: Stage::Finished,
                },
                seq![ActionView::Finish(Err(e@))],
            ),
            _ => unchanged,
        },
        Stage::AwaitPhoto => {
            let url = s.posts[s.next].photo_url;
            let rest = continue_from(s, s.next + 1);
            match ev {
                Event::PhotoFetched(bytes) => if decodes(bytes@) {
                    (
                        RunView {
                            usernames: s.usernames,
                            user: s.user,
                            posts: s.posts,
                            next: s.next,
                            stage: Stage::AwaitRender,
                        },
                        seq![ActionView::Render],
                    )
                } else {
                    (rest.0, seq![ActionView::DecodeFailed(url)] + rest.1)
                },
                Event::PhotoFailed(_) => (rest.0, seq![ActionView::DownloadFailed(url)] + rest.1),
                _ => unchanged,
            }
        },
        Stage::AwaitRender => {
            let rest = continue_from(s, s.next + 1);
            match ev {
                Event::Rendered => (rest.0, seq![ActionView::PrintSeparator] + rest.1),
                Event::RenderFailed(e) => (
                    rest.0,
                    seq![ActionView::RenderFailed(e@), ActionView::PrintSeparator] + rest.1,
                ),
                _ => unchanged,
            }
        },
        Stage::Finished => unchanged,
    }
}

/// A run of the pipeline over a list of users, one event at a time.
pub struct Run {
    usernames: Vec<String>,
    user: usize,
    posts: Vec<Post>,
    next: usize,
    stage: Stage,
}

impl View for Run {
    type V = RunView;

    closed spec fn view(&self) -> RunView {
        RunView {
            usernames: self.usernames@.map_values(|u: String| u@),
            user: self.user as int,
            posts: posts_view(self.posts@),
            next: self.next as int,
            stage: self.stage,
        }
    }
}

impl RunView {
    /// The current user exists while the run is not over, and the current
    /// post, which has a photo address, while a photo is awaited or painted.
    pub open spec fn wf(self) -> bool {
        &&& self.stage != Stage::Finished ==> 0 <= self.user < self.usernames.len()
        &&& (self.stage == Stage::AwaitPhoto || self.stage == Stage::AwaitRender) ==> {
            &&& 0 <= self.next < self.posts.len()
            &&& self.posts[self.next].photo_url.len() > 0
        }
    }
}

impl Run {
    /// Starts a run over `usernames`: the first user's page is asked for, or
    /// the run ends at once in success when there is no user.
    pub fn start(usernames: Vec<String>) -> (r: (Run, Vec<Action>))
        ensures
            r.0@.wf(),
            r.0@.usernames == usernames@.map_values(|u: String| u@),
            usernames.len() > 0 ==> r.0@.stage == Stage::AwaitProfile && r.0@.user == 0
                && actions_view(r.1@) == seq![ActionView::FetchProfile(usernames@[0]@)],
            usernames.len() == 0 ==> r.0@.stage == Stage::Finished && actions_view(r.1@) == seq![
                ActionView::Finish(Ok(())),
            ],
    {
        let mut acts: Vec<Action> = Vec::new();
        let stage = if usernames.len() > 0 {
            acts.push(Action::FetchProfile(usernames[0].clone()));
            Stage::AwaitProfile
        } else {
            acts.push(Action::Finish(Ok(())));
            Stage::Finished
        };
        assert(actions_view(acts@) =~= seq![acts@[0]@]);
        let run = Run { usernames, user: 0, posts: Vec::new(), next: 0, stage };
        assert(posts_view(run.posts@) =~= Seq::empty());
        (run, acts)
    }

    /// Where the run stands.
    pub fn stage(&self) -> (r: Stage)
        ensures
            r == self@.stage,
    {
        self.stage
    }

    /// Goes on with the current user's posts from post `k`, appending what
    /// that asks for to `acts`.
    fn continue_from(&mut self, k: usize, acts: &mut Vec<Action>)
        requires
            0 <= old(self)@.user < old(self)@.usernames.len(),
            k <= old(self)@.posts.len(),
        ensures
            final(self)@.wf(),
            final(self)@ == continue_from(old(self)@, k as int).0,
            actions_view(final(acts)@) == actions_view(old(acts)@) + continue_from(
                old(self)@,
                k as int,
            ).1,
    {
        let ghost s0 = self@;
        let ghost a0 = actions_view(acts@);
        let mut j: usize = k;
        loop
            invariant
                self@ == s0,
                s0 == old(self)@,
                a0 == actions_view(old(acts)@),
                0 <= s0.user < s0.usernames.len(),
                k <= j <= s0.posts.len(),
                first_photo_from(s0.posts, j as int) == first_photo_from(s0.posts, k as int),
                actions_view(acts@) + showing_actions(s0.posts, j as int) == a0 + showing_actions(
                    s0.posts,
                    k as int,
                ),
            decreases s0.posts.len() - j,
        {
            assert(self.usernames@.len() == s0.usernames.len());
            assert(self.user < self.usernames.len());
            assert(self.posts@.len() == s0.posts.len());
            if j == self.posts.len() {
                assert(showing_actions(s0.posts, j as int) =~= Seq::empty());
                assert(actions_view(acts@) =~= a0 + showing_actions(s0.posts, k as int));
                let ghost before = actions_view(acts@);
                if self.user + 1 < self.usernames.len() {
                    self.user = self.user + 1;
                    let a = Action::FetchProfile(self.usernames[self.user].clone());
                    acts.push(a);
                    self.posts = Vec::new();
                    self.next = 0;
                    self.stage = Stage::AwaitProfile;
                    assert(posts_view(self.posts@) =~= Seq::empty());
                    assert(actions_view(acts@) =~= before.push(a@));
                } else {
                    let a = Action::Finish(Ok(()));
                    acts.push(a);
                    self.stage = Stage::Finished;
                    assert(actions_view(acts@) =~= before.push(a@));
                }
                assert(self@ =~= continue_from(s0, k as int).0);
                assert(actions_view(acts@) =~= a0 + continue_from(s0, k as int).1);
                return;
            }
            let ghost before = actions_view(acts@);
            let caption = Action::PrintCaption(self.posts[j].caption.clone());
            acts.push(caption);
            match check_photo_url(self.posts[j].photo_url.as_str()) {
                Ok(()) => {
                    let a = Action::FetchPhoto(self.posts[j].photo_url.clone());
                    acts.push(a);
                    self.next = j;
                    self.stage = Stage::AwaitPhoto;
                    assert(actions_view(acts@) =~= before + showing_actions(s0.posts, j as int));
                    assert(self@ =~= continue_from(s0, k as int).0);
                    assert(actions_view(acts@) =~= a0 + continue_from(s0, k as int).1);
                    return;
                },
                Err(f) => {
                    let a = Action::Report(Report::Photo(self.posts[j].photo_url.clone(), f));
                    acts.push(a);
                    assert(showing_actions(s0.posts, j as int) =~= seq![caption@, a@]
                        + showing_actions(s0.posts, j + 1));
                    assert(actions_view(acts@) =~= before + seq![caption@, a@]);
                    j = j + 1;
                },
            }
        }
    }

    /// Takes in what the outside world reports and returns what the run asks
    /// for next, as `step_spec` describes.
    pub fn step(&mut self, ev: Event) -> (acts: Vec<Action>)
        requires
            old(self)@.wf(),
        ensures
            final(self)@.wf(),
            final(self)@ == step_spec(old(self)@, ev).0,
            actions_view(acts@) == step_spec(old(self)@, ev).1,
    {
        let ghost s0 = self@;
        assert(self.posts@.len() == s0.posts.len());
        let mut acts: Vec<Action> = Vec::new();
        match self.stage {
            Stage::AwaitProfile => match ev {
                Event::ProfileFetched(html) => {
                    let ghost h = html@;
                    let ex = extract(self.usernames[self.user].as_str(), html);
                    let ghost rs = extraction_reports(s0.usernames[s0.user], page_containers(h));
                    let ghost f = |u: Seq<char>| ActionView::ExtractionFailed(u);
                    let mut i: usize = 0;
                    while i < ex.reports.len()
                        invariant
                            i <= ex.reports.len(),
                            reports_view(ex.reports@) == rs,
                            f == (|u: Seq<char>| ActionView::ExtractionFailed(u)),
                            actions_view(acts@) == rs.take(i as int).map_values(f),
                        decreases ex.reports.len() - i,
                    {
                        let u = ex.reports[i].username.clone();
                        let a = Action::Report(Report::Extraction(ExtractionReport { username: u }));
                        acts.push(a);
                        assert(rs[i as int] == ex.reports@[i as int].username@);
                        assert(a@ == f(rs[i as int]));
                        assert(rs.take(i + 1).map_values(f) =~= rs.take(i as int).map_values(
                            f,
                        ).push(a@));
                        assert(actions_view(acts@) =~= actions_view(acts@.drop_last()).push(a@));
                        i = i + 1;
                    }
                    assert(rs.take(ex.reports.len() as int) =~= rs);
                    self.posts = ex.posts;
                    self.next = 0;
                    self.continue_from(0, &mut acts);
                },
                Event::ProfileFailed(e) => {
                    self.stage = Stage::Finished;
                    acts.push(Action::Finish(Err(e)));
                    assert(actions_view(acts@) =~= step_spec(s0, ev).1);
                },
                _ => {
                    assert(actions_view(acts@) =~= Seq::empty());
                },
            },
            Stage::AwaitPhoto => {
                let download = match ev {
                    Event::PhotoFetched(bytes) => Some(Ok(bytes)),
                    Event::PhotoFailed(e) => Some(Err(e)),
                    _ => None,
                };
                match download {
                    Some(d) => {
                        assert(self.next < self.posts.len());
                        let url = self.posts[self.next].photo_url.clone();
                        match decode_download(url.as_str(), d) {
                            Ok(img) => {
                                self.stage = Stage::AwaitRender;
                                acts.push(Action::Render(img));
                                assert(actions_view(acts@) =~= step_spec(s0, ev).1);
                            },
                            Err(f) => {
                                acts.push(Action::Report(Report::Photo(url, f)));
                                let ghost a1 = actions_view(acts@);
                                let k = self.next + 1;
                                self.continue_from(k, &mut acts);
                                assert(actions_view(acts@) =~= a1 + continue_from(s0, k as int).1);
                            },
                        }
                    },
                    None => {
                        assert(actions_view(acts@) =~= Seq::empty());
                    },
                }
            },
            Stage::AwaitRender => {
                let known = match ev {
                    Event::Rendered => true,
                    Event::RenderFailed(e) => {
                        acts.push(Action::Report(Report::Render(e)));
                        true
                    },
                    _ => false,
                };
                if known {
                    assert(self.next < self.posts.len());
                    acts.push(Action::PrintSeparator);
                    let ghost a1 = actions_view(acts@);
                    let k = self.next + 1;
                    self.continue_from(k, &mut acts);
                    assert(actions_view(acts@) =~= a1 + continue_from(s0, k as int).1);
                } else {
                    assert(actions_view(acts@) =~= Seq::empty());
                }
            },
            Stage::Finished => {
                assert(actions_view(acts@) =~= Seq::empty());
            },
        }
        acts
    }
}

} // verus!
