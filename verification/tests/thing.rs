use bgg::thing::Thing;
use bgg::types::ThingType;

#[test]
fn thing_default_url() {
    let url = Thing::new().to_string();
    assert_eq!(
        url,
        "https://www.boardgamegeek.com/xmlapi2/thing?id=&type=&versions=1&videos=1&stats=1&historical=1&marketplace=1&ratingcomments=1&page=1&pagesize=10"
    );
}

#[test]
fn thing_dedup_ids() {
    let once = Thing::new().with_id(42).to_string();
    let thrice = Thing::new().with_id(42).with_id(42).with_id(42).to_string();
    assert_eq!(once, thrice);
}

#[test]
fn thing_id_order_independent() {
    let a = Thing::new().with_id(174430).with_id(167791).with_id(173346).to_string();
    let b = Thing::new().with_id(173346).with_id(174430).with_id(167791).to_string();
    assert_eq!(a, b);
    assert!(a.contains("id=167791,173346,174430"));
}

#[test]
fn thing_type_order_independent() {
    let a = Thing::new()
        .with_type(ThingType::RPGItem)
        .with_type(ThingType::Boardgame)
        .with_type(ThingType::Videogame)
        .to_string();
    let b = Thing::new()
        .with_type(ThingType::Videogame)
        .with_type(ThingType::RPGItem)
        .with_type(ThingType::Boardgame)
        .to_string();
    assert_eq!(a, b);
    assert!(a.contains("type=boardgame,videogame,rpgitem"));
}

#[test]
fn thing_dedup_types() {
    let once = Thing::new().with_type(ThingType::BoardgameExpansion).to_string();
    let twice = Thing::new()
        .with_type(ThingType::BoardgameExpansion)
        .with_type(ThingType::BoardgameExpansion)
        .to_string();
    assert_eq!(once, twice);
}

#[test]
fn thing_fully_configured() {
    let url = Thing::new()
        .with_id(174430)
        .with_id(167791)
        .with_id(173346)
        .with_type(ThingType::Boardgame)
        .no_stats()
        .no_versions()
        .no_historical()
        .no_marketplace()
        .no_ratingcomments()
        .no_videos()
        .to_string();
    assert_eq!(
        url,
        "https://www.boardgamegeek.com/xmlapi2/thing?id=167791,173346,174430&type=boardgame&versions=0&videos=0&stats=0&historical=0&marketplace=0&ratingcomments=0&page=1&pagesize=10"
    );
}

#[test]
fn thing_pagination() {
    let url = Thing::new().page(3).pagesize(100).to_string();
    assert!(url.ends_with("&page=3&pagesize=100"));
}

#[test]
fn thing_page_zero_passed_through() {
    let url = Thing::new().page(0).pagesize(0).to_string();
    assert!(url.ends_with("&page=0&pagesize=0"));
}

#[test]
fn thing_largest_id() {
    let url = Thing::new().with_id(usize::MAX).to_string();
    assert!(url.contains("id=18446744073709551615&type="));
}

#[test]
fn thing_all_wire_names() {
    let url = Thing::new()
        .with_type(ThingType::Boardgame)
        .with_type(ThingType::BoardgameAccessory)
        .with_type(ThingType::BoardgameExpansion)
        .with_type(ThingType::Videogame)
        .with_type(ThingType::RPGItem)
        .with_type(ThingType::RPGIssue)
        .to_string();
    assert!(url.contains(
        "type=boardgame,boardgameaccessory,boardgameexpansion,videogame,rpgitem,rpgissue"
    ));
}
