//! The request builder for the `collection` action: a username, a subtype
//! set, three fixed flags, thirteen optional named boolean filters, and an
//! optional modified-since date.
//!
//! An unset filter is omitted from the URL; a filter set to `false` is
//! emitted with value `0`. The filters are serialized in their declaration
//! order, a fixed deterministic order.

use vstd::prelude::*;
use vstd::seq_lib::lemma_concat_associative;
use vstd::string::StringExecFns;
use crate::date::Date;
use crate::date::date_rep;
use crate::date::push_date;
use crate::render::bool_rep;
use crate::render::push_bool;
use crate::render::push_types;
use crate::render::types_rep;
use crate::sorted::insert_type;
use crate::sorted::sorted_types;
use crate::types::CollectionArgument;
use crate::types::ThingType;

verus! {

/// Builder for a `collection` request.
pub struct Collection {
    username: String,
    version: bool,
    subtype: Vec<ThingType>,
    brief: bool,
    stats: bool,
    own: Option<bool>,
    rated: Option<bool>,
    played: Option<bool>,
    comment: Option<bool>,
    trade: Option<bool>,
    want: Option<bool>,
    wishlist: Option<bool>,
    preordered: Option<bool>,
    wanttoplay: Option<bool>,
    wanttobuy: Option<bool>,
    prevowned: Option<bool>,
    hasparts: Option<bool>,
    wantparts: Option<bool>,
    modifiedsince: Option<Date>,
}

/// The abstract state of a `Collection` builder. `None` in a filter slot
/// means "unset": the parameter is omitted entirely, which the remote API
/// treats differently from an explicit `0`.
pub struct CollectionView {
    pub username: Seq<char>,
    pub version: bool,
    pub subtype: Seq<ThingType>,
    pub brief: bool,
    pub stats: bool,
    pub own: Option<bool>,
    pub rated: Option<bool>,
    pub played: Option<bool>,
    pub comment: Option<bool>,
    pub trade: Option<bool>,
    pub want: Option<bool>,
    pub wishlist: Option<bool>,
    pub preordered: Option<bool>,
    pub wanttoplay: Option<bool>,
    pub wanttobuy: Option<bool>,
    pub prevowned: Option<bool>,
    pub hasparts: Option<bool>,
    pub wantparts: Option<bool>,
    pub modifiedsince: Option<Date>,
}

impl View for Collection {
    type V = CollectionView;

    closed spec fn view(&self) -> CollectionView {
        CollectionView {
            username: self.username@,
            version: self.version,
            subtype: self.subtype@,
            brief: self.brief,
            stats: self.stats,
            own: self.own,
            rated: self.rated,
            played: self.played,
            comment: self.comment,
            trade: self.trade,
            want: self.want,
            wishlist: self.wishlist,
            preordered: self.preordered,
            wanttoplay: self.wanttoplay,
            wanttobuy: self.wanttobuy,
            prevowned: self.prevowned,
            hasparts: self.hasparts,
            wantparts: self.wantparts,
            modifiedsince: self.modifiedsince,
        }
    }
}

/// The subtype sequence is kept sorted and duplicate-free.
pub open spec fn collection_wf(v: CollectionView) -> bool {
    sorted_types(v.subtype)
}

/// The filter slot a `CollectionArgument` selects.
pub open spec fn filter_of(v: CollectionView, arg: CollectionArgument) -> Option<bool> {
    match arg {
        CollectionArgument::Ownership => v.own,
        CollectionArgument::Rated => v.rated,
        CollectionArgument::Played => v.played,
        CollectionArgument::Commented => v.comment,
        CollectionArgument::MarkedForTrade => v.trade,
        CollectionArgument::WantedForTrade => v.want,
        CollectionArgument::Wishlisted => v.wishlist,
        CollectionArgument::Preordered => v.preordered,
        CollectionArgument::WantToPlay => v.wanttoplay,
        CollectionArgument::WantToBuy => v.wanttobuy,
        CollectionArgument::PreviouslyOwned => v.prevowned,
        CollectionArgument::HasParts => v.hasparts,
        CollectionArgument::WantParts => v.wantparts,
    }
}

/// The state with the selected filter slot replaced by `o` and everything
/// else unchanged.
pub open spec fn with_filter(v: CollectionView, arg: CollectionArgument, o: Option<bool>) -> CollectionView {
    match arg {
        CollectionArgument::Ownership => CollectionView { own: o, ..v },
        CollectionArgument::Rated => CollectionView { rated: o, ..v },
        CollectionArgument::Played => CollectionView { played: o, ..v },
        CollectionArgument::Commented => CollectionView { comment: o, ..v },
        CollectionArgument::MarkedForTrade => CollectionView { trade: o, ..v },
        CollectionArgument::WantedForTrade => CollectionView { want: o, ..v },
        CollectionArgument::Wishlisted => CollectionView { wishlist: o, ..v },
        CollectionArgument::Preordered => CollectionView { preordered: o, ..v },
        CollectionArgument::WantToPlay => CollectionView { wanttoplay: o, ..v },
        CollectionArgument::WantToBuy => CollectionView { wanttobuy: o, ..v },
        CollectionArgument::PreviouslyOwned => CollectionView { prevowned: o, ..v },
        CollectionArgument::HasParts => CollectionView { hasparts: o, ..v },
        CollectionArgument::WantParts => CollectionView { wantparts: o, ..v },
    }
}

/// A set filter renders as its parameter (name already carrying the leading
/// `&` and trailing `=`) and `0` or `1`; an unset one renders as nothing.
pub open spec fn filter_rep(name: Seq<char>, o: Option<bool>) -> Seq<char> {
    match o {
        Option::Some(b) => name + bool_rep(b),
        Option::None => Seq::empty(),
    }
}

/// The trailing modified-since parameter, if a date is set.
pub open spec fn since_rep(o: Option<Date>) -> Seq<char> {
    match o {
        Option::Some(d) => "&modifiedsince="@ + date_rep(d),
        Option::None => Seq::empty(),
    }
}

/// The exact URL a `collection` builder state serializes to: the five fixed
/// parameters, then each set filter in declaration order, then the optional
/// date.
pub open spec fn collection_url(v: CollectionView) -> Seq<char> {
    "https://www.boardgamegeek.com/xmlapi2/collection?username="@ + v.username + "&version="@
        + bool_rep(v.version) + "&subtype="@ + types_rep(v.subtype) + "&brief="@ + bool_rep(v.brief)
        + "&stats="@ + bool_rep(v.stats) + filter_rep("&own="@, v.own) + filter_rep(
        "&rated="@,
        v.rated,
    ) + filter_rep("&played="@, v.played) + filter_rep("&comment="@, v.comment) + filter_rep(
        "&trade="@,
        v.trade,
    ) + filter_rep("&want="@, v.want) + filter_rep("&wishlist="@, v.wishlist) + filter_rep(
        "&preordered="@,
        v.preordered,
    ) + filter_rep("&wanttoplay="@, v.wanttoplay) + filter_rep("&wanttobuy="@, v.wanttobuy)
        + filter_rep("&prevowned="@, v.prevowned) + filter_rep("&hasparts="@, v.hasparts)
        + filter_rep("&wantparts="@, v.wantparts) + since_rep(v.modifiedsince)
}

/// Append one optional filter parameter: nothing when unset, `name` and `0`
/// or `1` when set.
fn push_filter(s: &mut String, name: &str, o: Option<bool>)
    ensures
        final(s)@ == old(s)@ + filter_rep(name@, o),
{
    match o {
        Option::Some(b) => {
            s.append(name);
            push_bool(s, b);
            proof {
                lemma_concat_associative(old(s)@, name@, bool_rep(b));
            }
        },
        Option::None => {
            proof {
                assert(old(s)@ + filter_rep(name@, o) =~= old(s)@);
            }
        },
    }
}

/// Append the modified-since parameter, if a date is set.
fn push_since(s: &mut String, o: Option<Date>)
    ensures
        final(s)@ == old(s)@ + since_rep(o),
{
    match o {
        Option::Some(d) => {
            s.append("&modifiedsince=");
            push_date(s, d);
            proof {
                lemma_concat_associative(old(s)@, "&modifiedsince="@, date_rep(d));
            }
        },
        Option::None => {
            proof {
                assert(old(s)@ + since_rep(o) =~= old(s)@);
            }
        },
    }
}

impl Collection {
    /// A fresh builder for `username`: version on, subtype `boardgame`,
    /// brief and stats on, every filter unset, no date. The username is
    /// passed through unvalidated.
    pub fn new(username: String) -> (c: Collection)
        ensures
            collection_wf(c@),
            c@.username == username@,
            c@.version,
            c@.subtype == seq![ThingType::Boardgame],
            c@.brief,
            c@.stats,
            c@.own == Option::<bool>::None,
            c@.rated == Option::<bool>::None,
            c@.played == Option::<bool>::None,
            c@.comment == Option::<bool>::None,
            c@.trade == Option::<bool>::None,
            c@.want == Option::<bool>::None,
            c@.wishlist == Option::<bool>::None,
            c@.preordered == Option::<bool>::None,
            c@.wanttoplay == Option::<bool>::None,
            c@.wanttobuy == Option::<bool>::None,
            c@.prevowned == Option::<bool>::None,
            c@.hasparts == Option::<bool>::None,
            c@.wantparts == Option::<bool>::None,
            c@.modifiedsince == Option::<Date>::None,
    {
        let mut subtype: Vec<ThingType> = Vec::new();
        subtype.push(ThingType::Boardgame);
        proof {
            assert(subtype@ =~= seq![ThingType::Boardgame]);
        }
        Collection {
            username,
            version: true,
            subtype,
            brief: true,
            stats: true,
            own: None,
            rated: None,
            played: None,
            comment: None,
            trade: None,
            want: None,
            wishlist: None,
            preordered: None,
            wanttoplay: None,
            wanttobuy: None,
            prevowned: None,
            hasparts: None,
            wantparts: None,
            modifiedsince: None,
        }
    }

    /// Set the modified-since cutoff, replacing any earlier one.
    pub fn modified_since(self, date: Date) -> (r: Collection)
        ensures
            r@ == (CollectionView { modifiedsince: Some(date), ..self@ }),
    {
        let mut c = self;
        c.modifiedsince = Some(date);
        c
    }

    /// Add a subtype to the subtype set; a duplicate changes nothing.
    pub fn with_subtype(self, subtype: ThingType) -> (r: Collection)
        requires
            collection_wf(self@),
        ensures
            collection_wf(r@),
            r@.subtype.to_set() == self@.subtype.to_set().insert(subtype),
            r@ == (CollectionView { subtype: r@.subtype, ..self@ }),
    {
        let mut c = self;
        insert_type(&mut c.subtype, subtype);
        c
    }

    /// Set a named filter to an explicit value; `false` is emitted as `0`,
    /// which the remote API distinguishes from the filter being unset.
    pub fn set_filter(self, arg: CollectionArgument, val: bool) -> (r: Collection)
        ensures
            r@ == with_filter(self@, arg, Some(val)),
    {
        let mut c = self;
        match arg {
            CollectionArgument::Ownership => {
                c.own = Some(val);
            },
            CollectionArgument::Rated => {
                c.rated = Some(val);
            },
            CollectionArgument::Played => {
                c.played = Some(val);
            },
            CollectionArgument::Commented => {
                c.comment = Some(val);
            },
            CollectionArgument::MarkedForTrade => {
                c.trade = Some(val);
            },
            CollectionArgument::WantedForTrade => {
                c.want = Some(val);
            },
            CollectionArgument::Wishlisted => {
                c.wishlist = Some(val);
            },
            CollectionArgument::Preordered => {
                c.preordered = Some(val);
            },
            CollectionArgument::WantToPlay => {
                c.wanttoplay = Some(val);
            },
            CollectionArgument::WantToBuy => {
                c.wanttobuy = Some(val);
            },
            CollectionArgument::PreviouslyOwned => {
                c.prevowned = Some(val);
            },
            CollectionArgument::HasParts => {
                c.hasparts = Some(val);
            },
            CollectionArgument::WantParts => {
                c.wantparts = Some(val);
            },
        }
        c
    }

    /// Return a named filter to "unset": it is omitted from the URL again.
    pub fn unset_filter(self, arg: CollectionArgument) -> (r: Collection)
        ensures
            r@ == with_filter(self@, arg, None),
    {
        let mut c = self;
        match arg {
            CollectionArgument::Ownership => {
                c.own = None;
            },
            CollectionArgument::Rated => {
                c.rated = None;
            },
            CollectionArgument::Played => {
                c.played = None;
            },
            CollectionArgument::Commented => {
                c.comment = None;
            },
            CollectionArgument::MarkedForTrade => {
                c.trade = None;
            },
            CollectionArgument::WantedForTrade => {
                c.want = None;
            },
            CollectionArgument::Wishlisted => {
                c.wishlist = None;
            },
            CollectionArgument::Preordered => {
                c.preordered = None;
            },
            CollectionArgument::WantToPlay => {
                c.wanttoplay = None;
            },
            CollectionArgument::WantToBuy => {
                c.wanttobuy = None;
            },
            CollectionArgument::PreviouslyOwned => {
                c.prevowned = None;
            },
            CollectionArgument::HasParts => {
                c.hasparts = None;
            },
            CollectionArgument::WantParts => {
                c.wantparts = None;
            },
        }
        c
    }

    /// Serialize to the `collection` URL: exactly `collection_url` of this
    /// state.
    pub fn to_string(&self) -> (r: String)
        ensures
            r@ == collection_url(self@),
    {
        let mut s = String::from_str("https://www.boardgamegeek.com/xmlapi2/collection?username=");
        s.append(self.username.as_str());
        s.append("&version=");
        push_bool(&mut s, self.version);
        s.append("&subtype=");
        push_types(&mut s, &self.subtype);
        s.append("&brief=");
        push_bool(&mut s, self.brief);
        s.append("&stats=");
        push_bool(&mut s, self.stats);
        push_filter(&mut s, "&own=", self.own);
        push_filter(&mut s, "&rated=", self.rated);
        push_filter(&mut s, "&played=", self.played);
        push_filter(&mut s, "&comment=", self.comment);
        push_filter(&mut s, "&trade=", self.trade);
        push_filter(&mut s, "&want=", self.want);
        push_filter(&mut s, "&wishlist=", self.wishlist);
        push_filter(&mut s, "&preordered=", self.preordered);
        push_filter(&mut s, "&wanttoplay=", self.wanttoplay);
        push_filter(&mut s, "&wanttobuy=", self.wanttobuy);
        push_filter(&mut s, "&prevowned=", self.prevowned);
        push_filter(&mut s, "&hasparts=", self.hasparts);
        push_filter(&mut s, "&wantparts=", self.wantparts);
        push_since(&mut s, self.modifiedsince);
        s
    }
}

} // verus!
