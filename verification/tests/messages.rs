use ffxiv_bot::about::{about_embed, ABOUT_COLOR};
use ffxiv_bot::datacenter::DataCenterLocation;
use ffxiv_bot::embed::EmbedField;
use ffxiv_bot::market::{
    is_wishlist_press, item_info_query, item_info_url, item_not_found_embed, listing_fields,
    market_embed, market_failure_embed, market_query, market_url, wishlist_button, wishlist_reply,
    MarketListing, WishlistReply,
};
use ffxiv_bot::news::{
    is_news_ok, news_embed, news_failure_embed, news_feed_url, news_unreachable_embed, News,
};

fn listing(world: Option<&str>, price: u32, total: u32) -> MarketListing {
    MarketListing { world_name: world.map(|w| w.to_string()), price_per_unit: price, total }
}

#[test]
fn about_message() {
    let e = about_embed();
    assert_eq!(e.author.as_deref(), Some("About"));
    assert_eq!(e.description.as_deref(), Some("FF14の各種情報を提供します。"));
    assert_eq!(e.color, Some(0x0073d1));
    assert_eq!(ABOUT_COLOR, 0x0073d1);
    assert!(e.fields.is_empty());
}

#[test]
fn listing_fields_skip_own_and_unnamed_worlds() {
    let listings = vec![
        listing(Some("Tonberry"), 500, 1000),
        listing(None, 0, 0),
        listing(Some("Gungnir"), 300, 900),
        listing(Some("Mandragora"), 7, 7),
    ];
    let worlds = vec!["Gungnir".to_string(), "Carbuncle".to_string()];
    let fields = listing_fields(&listings, &worlds);
    assert_eq!(
        fields,
        vec![
            EmbedField {
                name: "Tonberry".to_string(),
                value: "**1000Gil**(500Gil/per * 2)".to_string(),
                inline: false
            },
            EmbedField {
                name: "Mandragora".to_string(),
                value: "**7Gil**(7Gil/per * 1)".to_string(),
                inline: false
            },
        ]
    );
}

#[test]
fn market_messages() {
    let listings = vec![listing(Some("Tonberry"), 100, 350)];
    let e = market_embed("ポーション", "https://icon", &listings, &Vec::new(), 7);
    assert_eq!(e.author.as_deref(), Some("Market Information"));
    assert_eq!(e.description.as_deref(), Some("**ポーション**のマーケット情報を表示しています。"));
    assert_eq!(e.thumbnail.as_deref(), Some("https://icon"));
    assert_eq!(e.color, Some(7));
    assert_eq!(e.fields[0].value, "**350Gil**(100Gil/per * 3)");
    let nf = item_not_found_embed(3);
    assert_eq!(nf.author.as_deref(), Some("エラー"));
    assert_eq!(nf.description.as_deref(), Some("アイテムが見つかりませんでした。"));
    let f = market_failure_embed("404 Not Found", 3);
    assert_eq!(
        f.description.as_deref(),
        Some("マーケット情報の取得に失敗しました。ステータスコード: 404 Not Found")
    );
}

#[test]
fn market_requests() {
    assert_eq!(market_url(DataCenterLocation::Japan, 5057), "https://universalis.app/api/v2/Japan/5057");
    assert_eq!(
        market_url(DataCenterLocation::NorthAmerica, 0),
        "https://universalis.app/api/v2/North-America/0"
    );
    let q = market_query();
    assert_eq!(q[0], ("listings".to_string(), "8".to_string()));
    assert_eq!(
        q[1],
        (
            "fields".to_string(),
            "lastUploadTime,listings,unitsForSale,unitsSold,currentAveragePrice,regularSaleVelocity,minPrice,maxPrice"
                .to_string()
        )
    );
    assert_eq!(item_info_url(4), "https://xivapi.com/Item/4");
    let iq = item_info_query();
    assert_eq!(iq[0], ("snake_case".to_string(), "1".to_string()));
    assert_eq!(iq[1], ("columns".to_string(), "Icon,IconHD".to_string()));
}

#[test]
fn wishlist_button_and_replies() {
    let b = wishlist_button(42);
    assert_eq!(b.custom_id, "42-add-wishlist");
    assert_eq!(b.emoji, '📋');
    assert_eq!(b.label.as_deref(), Some("欲しいものリストに追加"));
    assert!(is_wishlist_press(42, "42-add-wishlist"));
    assert!(!is_wishlist_press(42, "42next"));
    match wishlist_reply(true, "エーテル", 1, 2) {
        WishlistReply::AlreadyListed(e) => {
            assert_eq!(e.author.as_deref(), Some("Wishlist"));
            assert_eq!(
                e.description.as_deref(),
                Some("**エーテル**はすでに欲しいものリストに追加されています。")
            );
            assert_eq!(e.color, Some(1));
        }
        other => panic!("{:?}", other),
    }
    match wishlist_reply(false, "エーテル", 1, 2) {
        WishlistReply::Add(e) => {
            assert_eq!(e.description.as_deref(), Some("**エーテル**を欲しいものリストに追加しました。"));
            assert_eq!(e.color, Some(2));
        }
        other => panic!("{:?}", other),
    }
}

fn topic(i: usize, description: &str) -> News {
    News {
        id: format!("{}", i),
        url: format!("https://n/{}", i),
        title: format!("title{}", i),
        image: String::new(),
        description: description.to_string(),
    }
}

#[test]
fn news_message_shows_ten_previews() {
    let news: Vec<News> = (0..12).map(|i| topic(i, "あいうえおかきくけこさしすせそたちつてとなにぬねの")).collect();
    let e = news_embed(&news);
    assert_eq!(e.author.as_deref(), Some("FF14 Lodestone News"));
    assert_eq!(e.author_url.as_deref(), Some(""));
    assert_eq!(e.fields.len(), 10);
    assert_eq!(e.fields[0].name, "title0");
    assert_eq!(e.fields[0].value, "[あいうえおかきくけこさしすせそたちつてと...](https://n/0)");
    assert!(!e.fields[9].inline);
    let short = news_embed(&vec![topic(1, "short")]);
    assert_eq!(short.fields.len(), 1);
    assert_eq!(short.fields[0].value, "[short...](https://n/1)");
    assert!(news_embed(&Vec::new()).fields.is_empty());
}

#[test]
fn news_failures() {
    assert!(is_news_ok(200));
    assert!(!is_news_ok(404));
    assert_eq!(news_feed_url(), "https://lodestonenews.com/news/topics?locale=jp");
    let f = news_failure_embed("500 Internal Server Error");
    assert_eq!(f.author_url.as_deref(), Some("https://jp.finalfantasyxiv.com/lodestone/"));
    assert_eq!(f.description.as_deref(), Some("エラーが発生しました。ステータスコード: 500 Internal Server Error"));
    let u = news_unreachable_embed("timed out");
    assert_eq!(u.description.as_deref(), Some("エラーが発生しました。\n```\ntimed out\n```"));
}
