use vstd::prelude::*;

use crate::datacenter::DataCenterLocation;
use crate::embed::{Button, ButtonView, Embed};
use crate::items::Item;
use crate::market::{
    is_wishlist_press, item_info_query, item_info_url, item_info_url_spec, item_not_found_embed,
    item_not_found_view, market_embed, market_failure_embed, market_failure_view, market_fields,
    market_query, market_url, market_url_spec, market_view, shown_prices_nonzero, wishlist_button,
    wishlist_button_id_spec, wishlist_reply, wishlist_view, MarketListing, WishlistReply,
};
use crate::text::joined;

verus! {

/// What the market command works with besides its state: the invocation, the worlds of the
/// data center asked about, and the colours of its messages.
pub struct MarketContext {
    pub context_id: u64,
    pub worlds: Vec<String>,
    pub color_error: u32,
    pub color_info: u32,
    pub color_success: u32,
}

/// Where the market command stands.
#[derive(Clone, Debug, PartialEq, Eq)]
pub enum MarketState {
    /// The item that the user named is being looked up; its board will be asked for in
    /// `location`.
    FindingItem { location: DataCenterLocation },
    /// The market board of the item has been asked for.
    FetchingBoard { location: DataCenterLocation, item: Item },
    /// The board came back with success; its offers are being read.
    ReadingBoard { item: Item },
    /// The item's icon has been asked for; the board's offers are at hand.
    FetchingIcon { item: Item, listings: Vec<MarketListing> },
    /// The market message stands; presses on its button are awaited.
    Listening { item: Item },
    /// The user's wish list is being searched for the item.
    CheckingWishlist { item: Item },
    /// The command has ended.
    Done,
}

/// What the outside world answered.
#[derive(Clone, Debug, PartialEq, Eq)]
pub enum MarketEvent {
    /// The item database answered the lookup: the item, or none.
    ItemLookup(Option<Item>),
    /// The market data service answered: whether with success, and its status as text.
    BoardAnswer { success: bool, status: String },
    /// The offers read from the board.
    BoardRead(Vec<MarketListing>),
    /// The address of the item's large icon.
    IconFetched(String),
    /// A press with this id arrived on the market message.
    Pressed(String),
    /// No more presses will arrive.
    PressesEnded,
    /// The wish list search answered: whether the user's wish list holds the item.
    WishlistLookup(bool),
}

/// What the market command does next.
#[derive(Clone, Debug, PartialEq, Eq)]
pub enum MarketAction {
    /// Send this message and end.
    SendAndFinish(Embed),
    /// Defer the answer, then ask the market data service at `url` with `query`.
    FetchBoard { url: String, query: Vec<(String, String)> },
    /// Read the offers from the board's body.
    ReadBoard,
    /// Ask the item database at `url` with `query` for the item's icon.
    FetchIcon { url: String, query: Vec<(String, String)> },
    /// Send this message with this button under it, and wait for presses.
    SendAndListen { embed: Embed, button: Button },
    /// Search the user's wish list for the item.
    LookUpWishlist,
    /// Send the user this message, seen by the user alone, and wait for presses.
    ReplyPrivately(Embed),
    /// Add the item to the user's wish list, answer the press with this message, seen by
    /// the user alone, and wait for presses.
    AddAndRespond(Embed),
    /// Wait for the next press.
    KeepListening,
    /// End.
    Finish,
}

/// The event is one that the state waits for.
pub open spec fn spec_expects(state: MarketState, event: MarketEvent) -> bool {
    match (state, event) {
        (MarketState::FindingItem { .. }, MarketEvent::ItemLookup(_)) => true,
        (MarketState::FetchingBoard { .. }, MarketEvent::BoardAnswer { .. }) => true,
        (MarketState::ReadingBoard { .. }, MarketEvent::BoardRead(_)) => true,
        (MarketState::FetchingIcon { .. }, MarketEvent::IconFetched(_)) => true,
        (MarketState::Listening { .. }, MarketEvent::Pressed(_)) => true,
        (MarketState::Listening { .. }, MarketEvent::PressesEnded) => true,
        (MarketState::CheckingWishlist { .. }, MarketEvent::WishlistLookup(_)) => true,
        _ => false,
    }
}

/// Whether `event` is one that `state` waits for.
pub fn expects(state: &MarketState, event: &MarketEvent) -> (b: bool)
    ensures
        b == spec_expects(*state, *event),
{
    match (state, event) {
        (MarketState::FindingItem { .. }, MarketEvent::ItemLookup(_)) => true,
        (MarketState::FetchingBoard { .. }, MarketEvent::BoardAnswer { .. }) => true,
        (MarketState::ReadingBoard { .. }, MarketEvent::BoardRead(_)) => true,
        (MarketState::FetchingIcon { .. }, MarketEvent::IconFetched(_)) => true,
        (MarketState::Listening { .. }, MarketEvent::Pressed(_)) => true,
        (MarketState::Listening { .. }, MarketEvent::PressesEnded) => true,
        (MarketState::CheckingWishlist { .. }, MarketEvent::WishlistLookup(_)) => true,
        _ => false,
    }
}

/// The query is the market board query: eight offers, and the parts of `market_fields`.
pub open spec fn is_market_query(q: Seq<(String, String)>) -> bool {
    &&& q.len() == 2
    &&& q[0].0@ == "listings"@
    &&& q[0].1@ == "8"@
    &&& q[1].0@ == "fields"@
    &&& q[1].1@ == joined(market_fields(), ","@)
}

/// The query is the item icon query.
pub open spec fn is_icon_query(q: Seq<(String, String)>) -> bool {
    &&& q.len() == 2
    &&& q[0].0@ == "snake_case"@
    &&& q[0].1@ == "1"@
    &&& q[1].0@ == "columns"@
    &&& q[1].1@ == "Icon,IconHD"@
}

/// The market command's next state and action, where `state` waits for `event`.
///
/// The item that is not found is answered with an error message, as is a board that comes
/// back with a failure status; a found item's board is asked for in the data center's
/// region; the board's offers and the item's icon make the market message with the wish
/// list button; a press on that button searches the user's wish list, and the item is
/// added where it is not on it yet; other presses are waited past.
pub fn market_step(ctx: &MarketContext, state: MarketState, event: MarketEvent) -> (r: (
    MarketState,
    MarketAction,
))
    requires
        spec_expects(state, event),
        state matches MarketState::FetchingIcon { listings, .. } ==> shown_prices_nonzero(
            listings@,
            ctx.worlds@,
        ),
    ensures
        ({
            let (next, action) = r;
            match (state, event) {
                (MarketState::FindingItem { location }, MarketEvent::ItemLookup(found)) => match found {
                    None => {
                        &&& next == MarketState::Done
                        &&& action matches MarketAction::SendAndFinish(e)
                        &&& e@ == item_not_found_view(ctx.color_error)
                    },
                    Some(item) => {
                        &&& next == (MarketState::FetchingBoard { location, item })
                        &&& action matches MarketAction::FetchBoard { url, query }
                        &&& url@ == market_url_spec(location, item.id)
                        &&& is_market_query(query@)
                    },
                },
                (MarketState::FetchingBoard { item, .. }, MarketEvent::BoardAnswer { success, status }) => {
                    if success {
                        next == (MarketState::ReadingBoard { item }) && action == MarketAction::ReadBoard
                    } else {
                        &&& next == MarketState::Done
                        &&& action matches MarketAction::SendAndFinish(e)
                        &&& e@ == market_failure_view(status@, ctx.color_error)
                    }
                },
                (MarketState::ReadingBoard { item }, MarketEvent::BoardRead(listings)) => {
                    &&& next == (MarketState::FetchingIcon { item, listings })
                    &&& action matches MarketAction::FetchIcon { url, query }
                    &&& url@ == item_info_url_spec(item.id)
                    &&& is_icon_query(query@)
                },
                (MarketState::FetchingIcon { item, listings }, MarketEvent::IconFetched(icon)) => {
                    &&& next == (MarketState::Listening { item })
                    &&& action matches MarketAction::SendAndListen { embed, button }
                    &&& embed@ == market_view(item.ja@, icon@, listings@, ctx.worlds@, ctx.color_info)
                    &&& button@ == (ButtonView {
                        custom_id: wishlist_button_id_spec(ctx.context_id),
                        emoji: '📋',
                        label: Some("欲しいものリストに追加"@),
                    })
                },
                (MarketState::Listening { item }, MarketEvent::Pressed(id)) => {
                    if id@ == wishlist_button_id_spec(ctx.context_id) {
                        next == (MarketState::CheckingWishlist { item }) && action
                            == MarketAction::LookUpWishlist
                    } else {
                        next == (MarketState::Listening { item }) && action == MarketAction::KeepListening
                    }
                },
                (MarketState::Listening { .. }, MarketEvent::PressesEnded) => next == MarketState::Done
                    && action == MarketAction::Finish,
                (MarketState::CheckingWishlist { item }, MarketEvent::WishlistLookup(listed)) => {
                    &&& next == (MarketState::Listening { item })
                    &&& listed ==> (action matches MarketAction::ReplyPrivately(e) && e@ == wishlist_view(
                        item.ja@,
                        "**はすでに欲しいものリストに追加されています。"@,
                        ctx.color_info,
                    ))
                    &&& !listed ==> (action matches MarketAction::AddAndRespond(e) && e@ == wishlist_view(
                        item.ja@,
                        "**を欲しいものリストに追加しました。"@,
                        ctx.color_success,
                    ))
                },
                _ => false,
            }
        }),
{
    match (state, event) {
        (MarketState::FindingItem { location }, MarketEvent::ItemLookup(found)) => match found {
            None => (MarketState::Done, MarketAction::SendAndFinish(item_not_found_embed(ctx.color_error))),
            Some(item) => {
                let url = market_url(location, item.id);
                let query = market_query();
                (MarketState::FetchingBoard { location, item }, MarketAction::FetchBoard { url, query })
            },
        },
        (MarketState::FetchingBoard { item, .. }, MarketEvent::BoardAnswer { success, status }) => {
            if success {
                (MarketState::ReadingBoard { item }, MarketAction::ReadBoard)
            } else {
                (
                    MarketState::Done,
                    MarketAction::SendAndFinish(market_failure_embed(status.as_str(), ctx.color_error)),
                )
            }
        },
        (MarketState::ReadingBoard { item }, MarketEvent::BoardRead(listings)) => {
            let url = item_info_url(item.id);
            let query = item_info_query();
            (MarketState::FetchingIcon { item, listings }, MarketAction::FetchIcon { url, query })
        },
        (MarketState::FetchingIcon { item, listings }, MarketEvent::IconFetched(icon)) => {
            let embed = market_embed(
                item.ja.as_str(),
                icon.as_str(),
                &listings,
                &ctx.worlds,
                ctx.color_info,
            );
            let button = wishlist_button(ctx.context_id);
            (MarketState::Listening { item }, MarketAction::SendAndListen { embed, button })
        },
        (MarketState::Listening { item }, MarketEvent::Pressed(id)) => {
            if is_wishlist_press(ctx.context_id, id.as_str()) {
                (MarketState::CheckingWishlist { item }, MarketAction::LookUpWishlist)
            } else {
                (MarketState::Listening { item }, MarketAction::KeepListening)
            }
        },
        (MarketState::Listening { .. }, MarketEvent::PressesEnded) => (MarketState::Done, MarketAction::Finish),
        (MarketState::CheckingWishlist { item }, MarketEvent::WishlistLookup(listed)) => {
            let reply = wishlist_reply(listed, item.ja.as_str(), ctx.color_info, ctx.color_success);
            let action = match reply {
                WishlistReply::AlreadyListed(e) => MarketAction::ReplyPrivately(e),
                WishlistReply::Add(e) => MarketAction::AddAndRespond(e),
            };
            (MarketState::Listening { item }, action)
        },
        _ => (MarketState::Done, MarketAction::Finish),
    }
}

} // verus!
