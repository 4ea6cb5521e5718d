use bgg::collection::Collection;
use bgg::date::Date;
use bgg::types::CollectionArgument;
use bgg::types::ThingType;

#[test]
fn collection_default_url() {
    let url = Collection::new("alice".to_string()).to_string();
    assert_eq!(
        url,
        "https://www.boardgamegeek.com/xmlapi2/collection?username=alice&version=1&subtype=boardgame&brief=1&stats=1"
    );
}

#[test]
fn collection_filter_present_then_cleared() {
    let with = Collection::new("alice".to_string())
        .set_filter(CollectionArgument::PreviouslyOwned, true)
        .to_string();
    assert!(with.contains("prevowned=1"));
    let cleared = Collection::new("alice".to_string())
        .set_filter(CollectionArgument::PreviouslyOwned, true)
        .unset_filter(CollectionArgument::PreviouslyOwned)
        .to_string();
    assert!(!cleared.contains("prevowned"));
}

#[test]
fn collection_false_differs_from_unset() {
    let explicit = Collection::new("alice".to_string())
        .set_filter(CollectionArgument::Rated, false)
        .to_string();
    assert!(explicit.contains("rated=0"));
    let unset = Collection::new("alice".to_string()).to_string();
    assert!(!unset.contains("rated"));
}

#[test]
fn collection_filter_overwrite() {
    let url = Collection::new("alice".to_string())
        .set_filter(CollectionArgument::Rated, true)
        .set_filter(CollectionArgument::Rated, false)
        .to_string();
    assert!(url.contains("&rated=0"));
    assert!(!url.contains("&rated=1"));
}

#[test]
fn collection_modified_since_format() {
    let url = Collection::new("alice".to_string())
        .modified_since(Date::new(2014, 7, 8))
        .to_string();
    assert!(url.contains("modifiedsince=14-07-08"));
}

#[test]
fn collection_date_padding() {
    let url = Collection::new("alice".to_string())
        .modified_since(Date::new(2005, 11, 3))
        .to_string();
    assert!(url.ends_with("&modifiedsince=05-11-03"));
    let url = Collection::new("alice".to_string())
        .modified_since(Date::new(1999, 12, 31))
        .to_string();
    assert!(url.ends_with("&modifiedsince=99-12-31"));
}

#[test]
fn collection_concrete_scenario() {
    let url = Collection::new("kyrremann".to_string())
        .modified_since(Date::new(2014, 7, 8))
        .set_filter(CollectionArgument::PreviouslyOwned, true)
        .to_string();
    assert_eq!(
        url,
        "https://www.boardgamegeek.com/xmlapi2/collection?username=kyrremann&version=1&subtype=boardgame&brief=1&stats=1&prevowned=1&modifiedsince=14-07-08"
    );
}

#[test]
fn collection_subtype_dedup_and_order() {
    let a = Collection::new("alice".to_string())
        .with_subtype(ThingType::BoardgameExpansion)
        .with_subtype(ThingType::Boardgame)
        .with_subtype(ThingType::BoardgameExpansion)
        .to_string();
    let b = Collection::new("alice".to_string())
        .with_subtype(ThingType::Boardgame)
        .with_subtype(ThingType::BoardgameExpansion)
        .to_string();
    assert_eq!(a, b);
    assert!(a.contains("subtype=boardgame,boardgameexpansion&"));
}

#[test]
fn collection_all_filters_in_declaration_order() {
    let url = Collection::new("bob".to_string())
        .set_filter(CollectionArgument::WantParts, true)
        .set_filter(CollectionArgument::HasParts, false)
        .set_filter(CollectionArgument::PreviouslyOwned, true)
        .set_filter(CollectionArgument::WantToBuy, false)
        .set_filter(CollectionArgument::WantToPlay, true)
        .set_filter(CollectionArgument::Preordered, false)
        .set_filter(CollectionArgument::Wishlisted, true)
        .set_filter(CollectionArgument::WantedForTrade, false)
        .set_filter(CollectionArgument::MarkedForTrade, true)
        .set_filter(CollectionArgument::Commented, false)
        .set_filter(CollectionArgument::Played, true)
        .set_filter(CollectionArgument::Rated, false)
        .set_filter(CollectionArgument::Ownership, true)
        .to_string();
    assert_eq!(
        url,
        "https://www.boardgamegeek.com/xmlapi2/collection?username=bob&version=1&subtype=boardgame&brief=1&stats=1&own=1&rated=0&played=1&comment=0&trade=1&want=0&wishlist=1&preordered=0&wanttoplay=1&wanttobuy=0&prevowned=1&hasparts=0&wantparts=1"
    );
}

#[test]
fn collection_username_passed_through() {
    let url = Collection::new(String::new()).to_string();
    assert!(url.contains("?username=&version=1"));
}
