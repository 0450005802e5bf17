use vstd::prelude::*;

verus! {

/// One post of a profile: its caption text and the address of its photo.
#[derive(Clone, Debug, PartialEq, Eq)]
pub struct Post {
    pub caption: String,
    pub photo_url: String,
}

pub struct PostView {
    pub caption: Seq<char>,
    pub photo_url: Seq<char>,
}

impl View for Post {
    type V = PostView;

    open spec fn view(&self) -> PostView {
        PostView { caption: self.caption@, photo_url: self.photo_url@ }
    }
}

/// The image element found below a post container, with its `src`
/// attribute if it has one.
#[derive(Clone, Debug, PartialEq, Eq)]
pub struct ImageNode {
    pub src: Option<String>,
}

/// What a post container holds: the text of its first caption element and
/// its first image element, each absent when the container has none.
#[derive(Clone, Debug, PartialEq, Eq)]
pub struct Container {
    pub caption: Option<String>,
    pub image: Option<ImageNode>,
}

pub struct ContainerView {
    pub caption: Option<Seq<char>>,
    pub image: Option<Option<Seq<char>>>,
}

pub open spec fn opt_view(s: Option<String>) -> Option<Seq<char>> {
    match s {
        Some(t) => Some(t@),
        None => None,
    }
}

impl View for Container {
    type V = ContainerView;

    open spec fn view(&self) -> ContainerView {
        ContainerView {
            caption: opt_view(self.caption),
            image: match self.image {
                Some(i) => Some(opt_view(i.src)),
                None => None,
            },
        }
    }
}

/// A container yields a post exactly when it has both a caption and an image.
pub open spec fn well_formed(c: ContainerView) -> bool {
    c.caption is Some && c.image is Some
}

/// The post a container yields: the caption text, and the image's `src`, or
/// the empty string when the image has no `src`.
pub open spec fn post_of(c: ContainerView) -> Option<PostView> {
    match (c.caption, c.image) {
        (Some(caption), Some(src)) => Some(
            PostView {
                caption,
                photo_url: match src {
                    Some(u) => u,
                    None => Seq::empty(),
                },
            },
        ),
        _ => None,
    }
}

pub open spec fn containers_view(cs: Seq<Container>) -> Seq<ContainerView> {
    cs.map_values(|c: Container| c@)
}

pub open spec fn posts_view(ps: Seq<Post>) -> Seq<PostView> {
    ps.map_values(|p: Post| p@)
}

} // verus!
