//! The request builder for the `thing` action: a set of ids, a set of item
//! categories, six "include" flags, and pagination, serialized to a fixed
//! parameter order in which every parameter always appears.

use vstd::prelude::*;
use vstd::string::StringExecFns;
use crate::render::bool_rep;
use crate::render::dec_rep;
use crate::render::ids_rep;
use crate::render::push_bool;
use crate::render::push_dec;
use crate::render::push_ids;
use crate::render::push_types;
use crate::render::types_rep;
use crate::sorted::insert_id;
use crate::sorted::insert_type;
use crate::sorted::sorted_ids;
use crate::sorted::sorted_types;
use crate::types::ThingType;

verus! {

/// Builder for a `thing` request.
pub struct Thing {
    id: Vec<usize>,
    types: Vec<ThingType>,
    versions: bool,
    videos: bool,
    stats: bool,
    historical: bool,
    marketplace: bool,
    ratingcomments: bool,
    page: usize,
    pagesize: usize,
}

/// The abstract state of a `Thing` builder.
pub struct ThingView {
    pub ids: Seq<usize>,
    pub types: Seq<ThingType>,
    pub versions: bool,
    pub videos: bool,
    pub stats: bool,
    pub historical: bool,
    pub marketplace: bool,
    pub ratingcomments: bool,
    pub page: int,
    pub pagesize: int,
}

impl View for Thing {
    type V = ThingView;

    closed spec fn view(&self) -> ThingView {
        ThingView {
            ids: self.id@,
            types: self.types@,
            versions: self.versions,
            videos: self.videos,
            stats: self.stats,
            historical: self.historical,
            marketplace: self.marketplace,
            ratingcomments: self.ratingcomments,
            page: self.page as int,
            pagesize: self.pagesize as int,
        }
    }
}

/// The id and category sequences are kept sorted and duplicate-free, so the
/// serialized form is a function of the sets alone.
pub open spec fn thing_wf(v: ThingView) -> bool {
    sorted_ids(v.ids) && sorted_types(v.types)
}

/// The exact URL a `thing` builder state serializes to. Every parameter
/// appears, in this fixed order, whether or not it was ever configured.
pub open spec fn thing_url(v: ThingView) -> Seq<char> {
    "https://www.boardgamegeek.com/xmlapi2/thing?id="@ + ids_rep(v.ids) + "&type="@ + types_rep(
        v.types,
    ) + "&versions="@ + bool_rep(v.versions) + "&videos="@ + bool_rep(v.videos) + "&stats="@
        + bool_rep(v.stats) + "&historical="@ + bool_rep(v.historical) + "&marketplace="@
        + bool_rep(v.marketplace) + "&ratingcomments="@ + bool_rep(v.ratingcomments) + "&page="@
        + dec_rep(v.page) + "&pagesize="@ + dec_rep(v.pagesize)
}

impl Thing {
    /// A fresh builder: no ids, no categories, every include-flag on,
    /// first page, ten items a page.
    pub fn new() -> (t: Thing)
        ensures
            thing_wf(t@),
            t@.ids == Seq::<usize>::empty(),
            t@.types == Seq::<ThingType>::empty(),
            t@.versions,
            t@.videos,
            t@.stats,
            t@.historical,
            t@.marketplace,
            t@.ratingcomments,
            t@.page == 1,
            t@.pagesize == 10,
    {
        Thing {
            id: Vec::new(),
            types: Vec::new(),
            versions: true,
            videos: true,
            stats: true,
            historical: true,
            marketplace: true,
            ratingcomments: true,
            page: 1,
            pagesize: 10,
        }
    }

    /// Add an id to the id set; a duplicate changes nothing.
    pub fn with_id(self, id: usize) -> (r: Thing)
        requires
            thing_wf(self@),
        ensures
            thing_wf(r@),
            r@.ids.to_set() == self@.ids.to_set().insert(id),
            r@ == (ThingView { ids: r@.ids, ..self@ }),
    {
        let mut t = self;
        insert_id(&mut t.id, id);
        t
    }

    /// Add a category to the type filter set; a duplicate changes nothing.
    pub fn with_type(self, thingtype: ThingType) -> (r: Thing)
        requires
            thing_wf(self@),
        ensures
            thing_wf(r@),
            r@.types.to_set() == self@.types.to_set().insert(thingtype),
            r@ == (ThingView { types: r@.types, ..self@ }),
    {
        let mut t = self;
        insert_type(&mut t.types, thingtype);
        t
    }

    /// Leave version information out of the response.
    pub fn no_versions(self) -> (r: Thing)
        ensures
            r@ == (ThingView { versions: false, ..self@ }),
    {
        let mut t = self;
        t.versions = false;
        t
    }

    /// Leave videos out of the response.
    pub fn no_videos(self) -> (r: Thing)
        ensures
            r@ == (ThingView { videos: false, ..self@ }),
    {
        let mut t = self;
        t.videos = false;
        t
    }

    /// Leave statistics out of the response.
    pub fn no_stats(self) -> (r: Thing)
        ensures
            r@ == (ThingView { stats: false, ..self@ }),
    {
        let mut t = self;
        t.stats = false;
        t
    }

    /// Leave historical data out of the response.
    pub fn no_historical(self) -> (r: Thing)
        ensures
            r@ == (ThingView { historical: false, ..self@ }),
    {
        let mut t = self;
        t.historical = false;
        t
    }

    /// Leave marketplace data out of the response.
    pub fn no_marketplace(self) -> (r: Thing)
        ensures
            r@ == (ThingView { marketplace: false, ..self@ }),
    {
        let mut t = self;
        t.marketplace = false;
        t
    }

    /// Leave rating comments out of the response.
    pub fn no_ratingcomments(self) -> (r: Thing)
        ensures
            r@ == (ThingView { ratingcomments: false, ..self@ }),
    {
        let mut t = self;
        t.ratingcomments = false;
        t
    }

    /// Set the page to fetch; any value is serialized verbatim.
    pub fn page(self, page: usize) -> (r: Thing)
        ensures
            r@ == (ThingView { page: page as int, ..self@ }),
    {
        let mut t = self;
        t.page = page;
        t
    }

    /// Set the page size; any value is serialized verbatim.
    pub fn pagesize(self, pagesize: usize) -> (r: Thing)
        ensures
            r@ == (ThingView { pagesize: pagesize as int, ..self@ }),
    {
        let mut t = self;
        t.pagesize = pagesize;
        t
    }

    /// Serialize to the `thing` URL: exactly `thing_url` of this state.
    pub fn to_string(&self) -> (r: String)
        ensures
            r@ == thing_url(self@),
    {
        let mut s = String::from_str("https://www.boardgamegeek.com/xmlapi2/thing?id=");
        push_ids(&mut s, &self.id);
        s.append("&type=");
        push_types(&mut s, &self.types);
        s.append("&versions=");
        push_bool(&mut s, self.versions);
        s.append("&videos=");
        push_bool(&mut s, self.videos);
        s.append("&stats=");
        push_bool(&mut s, self.stats);
        s.append("&historical=");
        push_bool(&mut s, self.historical);
        s.append("&marketplace=");
        push_bool(&mut s, self.marketplace);
        s.append("&ratingcomments=");
        push_bool(&mut s, self.ratingcomments);
        s.append("&page=");
        push_dec(&mut s, self.page);
        s.append("&pagesize=");
        push_dec(&mut s, self.pagesize);
        s
    }
}

} // verus!
