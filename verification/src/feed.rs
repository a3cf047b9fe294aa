//! The wallpapers that the feed offers: from the text of its answer to the
//! list of candidates.

use crate::configuration::Configuration;
use crate::json::document_of;
use crate::json::Json;
use crate::shuffle::is_order;
use crate::shuffle::random_order;
use crate::text::slice_view;
use crate::wallpaper::views;
use crate::wallpaper::Wallpaper;
use crate::wallpaper::WallpaperView;
use vstd::prelude::*;

verus! {

/// The text of the field `name` of a post, where the post has such a field
/// and it is a text.
pub open spec fn field(post: Json, name: Seq<char>) -> Option<Seq<char>> {
    match post.member(name) {
        Some(value) => value.text(),
        None => None,
    }
}

/// The wallpaper that a post offers, where the post has a title and an
/// address.
pub open spec fn offered(post: Json) -> Option<WallpaperView> {
    match (field(post, "title"@), field(post, "url"@)) {
        (Some(title), Some(url)) => Some(WallpaperView::fresh(title, url)),
        _ => None,
    }
}

/// The wallpaper that an entry of a listing offers: that of the post under
/// its `data`, if it has one.
pub open spec fn listed(child: Json) -> Option<WallpaperView> {
    match child.member("data"@) {
        Some(post) => offered(post),
        None => None,
    }
}

/// The wallpapers that a feed document offers, in its order: those of the
/// entries under `data.children`. An entry that offers none is passed over; a
/// document without such a list offers none.
pub open spec fn candidates(document: Json) -> Seq<WallpaperView> {
    match document.member("data"@) {
        Some(data) => match data.member("children"@) {
            Some(children) => match children.items() {
                Some(items) => items.filter_map(|child: Json| listed(child)),
                None => Seq::empty(),
            },
            None => Seq::empty(),
        },
        None => Seq::empty(),
    }
}

/// The wallpapers that the answer of the feed offers, in its order. No answer,
/// or one that is no JSON document, offers none.
pub open spec fn answered(body: Option<Seq<char>>) -> Seq<WallpaperView> {
    match body {
        Some(text) => match document_of(text) {
            Some(document) => candidates(document),
            None => Seq::empty(),
        },
        None => Seq::empty(),
    }
}

/// Whether each of the wallpapers is as it leaves the feed: nothing is known
/// of it but title and address.
pub open spec fn all_fresh(wallpapers: Seq<WallpaperView>) -> bool {
    forall|i: int|
        0 <= i < wallpapers.len() ==> (#[trigger] wallpapers[i]) == WallpaperView::fresh(
            wallpapers[i].title,
            wallpapers[i].url,
        )
}

/// The items of `items` in the given order: the `i`-th is the one that
/// `order` names at `i`.
pub open spec fn arranged(items: Seq<WallpaperView>, order: Seq<usize>) -> Seq<WallpaperView> {
    Seq::new(order.len(), |i: int| items[order[i] as int])
}

/// Whether `shuffled` holds the items of `items`, each exactly once, in some
/// order.
pub open spec fn rearranges(shuffled: Seq<WallpaperView>, items: Seq<WallpaperView>) -> bool {
    exists|order: Seq<usize>|
        order.len() == items.len() && is_order(order) && shuffled == #[trigger] arranged(
            items,
            order,
        )
}

/// The wallpapers of `items` in the given order.
pub fn arrange(items: &Vec<Wallpaper>, order: &Vec<usize>) -> (r: Vec<Wallpaper>)
    requires
        forall|i: int| 0 <= i < order@.len() ==> #[trigger] order@[i] < items@.len(),
    ensures
        views(r@) == arranged(views(items@), order@),
{
    let mut r: Vec<Wallpaper> = Vec::new();
    let mut i: usize = 0;
    while i < order.len()
        invariant
            i <= order.len(),
            forall|k: int| 0 <= k < order@.len() ==> #[trigger] order@[k] < items@.len(),
            r@.len() == i,
            forall|k: int| 0 <= k < i ==> (#[trigger] r@[k])@ == items@[order@[k] as int]@,
        decreases order.len() - i,
    {
        r.push(items[order[i]].clone());
        i += 1;
    }
    r
}

impl Wallpaper {
    /// The wallpaper that a post offers. It fails where the post has no title
    /// or no address that is a text, and names the first that is missing.
    pub fn from_json(json: &Json) -> (r: Result<Wallpaper, &'static str>)
        ensures
            match r {
                Ok(wallpaper) => offered(*json) == Some(wallpaper@),
                Err(message) => offered(*json) is None && message@ == (if field(*json, "title"@)
                    is None {
                    "field 'title' not found"@
                } else {
                    "field 'url' not found"@
                }),
            },
    {
        let title = match json.get("title") {
            Some(value) => value.as_str(),
            None => None,
        };
        let title = match title {
            Some(title) => title,
            None => return Err("field 'title' not found"),
        };
        let url = match json.get("url") {
            Some(value) => value.as_str(),
            None => None,
        };
        let url = match url {
            Some(url) => url,
            None => return Err("field 'url' not found"),
        };
        Ok(Wallpaper::new(title.to_owned(), url.to_owned()))
    }

    /// The wallpapers that a feed document offers, in its order, each as it
    /// leaves the feed.
    pub fn from_listing(document: &Json) -> (r: Vec<Wallpaper>)
        ensures
            views(r@) == candidates(*document),
            all_fresh(views(r@)),
    {
        let mut r: Vec<Wallpaper> = Vec::new();
        let data = match document.get("data") {
            Some(data) => data,
            None => return r,
        };
        let children = match data.get("children") {
            Some(children) => children,
            None => return r,
        };
        let items = match children.as_array() {
            Some(items) => items,
            None => return r,
        };
        let ghost pick = |child: Json| listed(child);
        let mut i: usize = 0;
        while i < items.len()
            invariant
                i <= items.len(),
                pick == |child: Json| listed(child),
                views(r@) == items@.take(i as int).filter_map(pick),
                all_fresh(views(r@)),
            decreases items.len() - i,
        {
            proof {
                items@.lemma_filter_map_take_succ(pick, i as int);
            }
            match items[i].get("data") {
                Some(post) => match Wallpaper::from_json(post) {
                    Ok(wallpaper) => {
                        let ghost before = r@;
                        r.push(wallpaper);
                        assert(views(r@) =~= views(before) + seq![wallpaper@]);
                    },
                    Err(_) => {},
                },
                None => {},
            }
            i += 1;
        }
        assert(items@.take(items.len() as int) =~= items@);
        r
    }

    /// The wallpapers that the answer of the feed offers. Without an answer,
    /// or with one that is no JSON document, there are none. They come in the
    /// order of the feed, or, where the configuration asks for it, in an
    /// order picked at random. Each is as it leaves the feed.
    pub fn search_on_reddit(config: &Configuration, body: Option<&str>) -> (r: Vec<Wallpaper>)
        ensures
            !config.random ==> views(r@) == answered(slice_view(body)),
            config.random ==> rearranges(views(r@), answered(slice_view(body))),
            all_fresh(views(r@)),
    {
        let found = match body {
            Some(text) => match Json::parse(text) {
                Some(document) => Wallpaper::from_listing(&document),
                None => Vec::new(),
            },
            None => Vec::new(),
        };
        assert(views(found@) =~= answered(slice_view(body)));
        if config.random {
            let order = random_order(found.len());
            arrange(&found, &order)
        } else {
            found
        }
    }
}

} // verus!
