use ffxiv_bot::datacenter::DataCenterLocation;
use ffxiv_bot::items::Item;
use ffxiv_bot::market::{shown_prices_nonzero_exec, MarketListing};
use ffxiv_bot::market_flow::{expects, market_step, MarketAction, MarketContext, MarketEvent, MarketState};
use ffxiv_bot::news::{news_after_answer, NewsAction, NewsAnswer};

fn potion() -> Item {
    Item { id: 4551, en: "Potion".into(), de: String::new(), ja: "ポーション".into(), fr: String::new() }
}

fn context() -> MarketContext {
    MarketContext {
        context_id: 99,
        worlds: vec!["Gungnir".to_string()],
        color_error: 1,
        color_info: 2,
        color_success: 3,
    }
}

#[test]
fn market_item_not_found() {
    let (next, action) = market_step(
        &context(),
        MarketState::FindingItem { location: DataCenterLocation::Japan },
        MarketEvent::ItemLookup(None),
    );
    assert_eq!(next, MarketState::Done);
    match action {
        MarketAction::SendAndFinish(e) => {
            assert_eq!(e.description.as_deref(), Some("アイテムが見つかりませんでした。"));
            assert_eq!(e.color, Some(1));
        }
        other => panic!("{:?}", other),
    }
}

#[test]
fn market_whole_run() {
    let ctx = context();
    let state = MarketState::FindingItem { location: DataCenterLocation::Japan };
    let (state, action) = market_step(&ctx, state, MarketEvent::ItemLookup(Some(potion())));
    match action {
        MarketAction::FetchBoard { url, query } => {
            assert_eq!(url, "https://universalis.app/api/v2/Japan/4551");
            assert_eq!(query.len(), 2);
        }
        other => panic!("{:?}", other),
    }
    let event = MarketEvent::BoardAnswer { success: true, status: "200 OK".into() };
    assert!(expects(&state, &event));
    let (state, action) = market_step(&ctx, state, event);
    assert_eq!(action, MarketAction::ReadBoard);
    let listings = vec![
        MarketListing { world_name: Some("Tonberry".into()), price_per_unit: 10, total: 30 },
        MarketListing { world_name: Some("Gungnir".into()), price_per_unit: 0, total: 0 },
    ];
    let (state, action) = market_step(&ctx, state, MarketEvent::BoardRead(listings));
    match action {
        MarketAction::FetchIcon { url, .. } => assert_eq!(url, "https://xivapi.com/Item/4551"),
        other => panic!("{:?}", other),
    }
    let (state, action) = market_step(&ctx, state, MarketEvent::IconFetched("https://icon".into()));
    match action {
        MarketAction::SendAndListen { embed, button } => {
            assert_eq!(embed.fields.len(), 1);
            assert_eq!(embed.fields[0].value, "**30Gil**(10Gil/per * 3)");
            assert_eq!(embed.thumbnail.as_deref(), Some("https://icon"));
            assert_eq!(button.custom_id, "99-add-wishlist");
        }
        other => panic!("{:?}", other),
    }
    assert!(!expects(&state, &MarketEvent::ItemLookup(None)));
    let (state, action) = market_step(&ctx, state, MarketEvent::Pressed("99next".into()));
    assert_eq!(action, MarketAction::KeepListening);
    let (state, action) = market_step(&ctx, state, MarketEvent::Pressed("99-add-wishlist".into()));
    assert_eq!(action, MarketAction::LookUpWishlist);
    let (state, action) = market_step(&ctx, state, MarketEvent::WishlistLookup(false));
    match action {
        MarketAction::AddAndRespond(e) => {
            assert_eq!(e.description.as_deref(), Some("**ポーション**を欲しいものリストに追加しました。"));
            assert_eq!(e.color, Some(3));
        }
        other => panic!("{:?}", other),
    }
    let (state, _) = market_step(&ctx, state, MarketEvent::Pressed("99-add-wishlist".into()));
    let (state, action) = market_step(&ctx, state, MarketEvent::WishlistLookup(true));
    assert!(matches!(action, MarketAction::ReplyPrivately(_)));
    let (state, action) = market_step(&ctx, state, MarketEvent::PressesEnded);
    assert_eq!(state, MarketState::Done);
    assert_eq!(action, MarketAction::Finish);
}

#[test]
fn market_board_failure() {
    let state = MarketState::FetchingBoard { location: DataCenterLocation::Europe, item: potion() };
    let (next, action) = market_step(
        &context(),
        state,
        MarketEvent::BoardAnswer { success: false, status: "503 Service Unavailable".into() },
    );
    assert_eq!(next, MarketState::Done);
    match action {
        MarketAction::SendAndFinish(e) => assert_eq!(
            e.description.as_deref(),
            Some("マーケット情報の取得に失敗しました。ステータスコード: 503 Service Unavailable")
        ),
        other => panic!("{:?}", other),
    }
}

#[test]
fn shown_prices_check() {
    let worlds = vec!["Gungnir".to_string()];
    let ok = vec![
        MarketListing { world_name: None, price_per_unit: 0, total: 0 },
        MarketListing { world_name: Some("Gungnir".into()), price_per_unit: 0, total: 5 },
        MarketListing { world_name: Some("Tonberry".into()), price_per_unit: 1, total: 5 },
    ];
    assert!(shown_prices_nonzero_exec(&ok, &worlds));
    let bad = vec![MarketListing { world_name: Some("Tonberry".into()), price_per_unit: 0, total: 5 }];
    assert!(!shown_prices_nonzero_exec(&bad, &worlds));
}

#[test]
fn news_answers() {
    assert_eq!(news_after_answer(&NewsAnswer::Status { code: 200, text: "200 OK".into() }), NewsAction::ReadTopics);
    match news_after_answer(&NewsAnswer::Status { code: 404, text: "404 Not Found".into() }) {
        NewsAction::Send(e) => {
            assert_eq!(e.description.as_deref(), Some("エラーが発生しました。ステータスコード: 404 Not Found"))
        }
        other => panic!("{:?}", other),
    }
    match news_after_answer(&NewsAnswer::Unreachable("dns error".into())) {
        NewsAction::Send(e) => {
            assert_eq!(e.description.as_deref(), Some("エラーが発生しました。\n```\ndns error\n```"))
        }
        other => panic!("{:?}", other),
    }
}
