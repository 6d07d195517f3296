use vstd::prelude::*;

use crate::datacenter::DataCenterLocation;
use crate::embed::{Button, ButtonView, Embed, EmbedField, EmbedView, FieldView};
use crate::text::{concat_str, decimal, decimal_string, equal_str, join, joined};

verus! {

/// One offer on the market board, as far as the market message reads it.
#[derive(Clone, Debug, PartialEq, Eq)]
pub struct MarketListing {
    /// The world that the offer stands on, where the service names it.
    pub world_name: Option<String>,
    pub price_per_unit: u32,
    /// The price of the whole offer.
    pub total: u32,
}

/// `name` is one of `names`.
pub open spec fn is_listed(names: Seq<String>, name: Seq<char>) -> bool {
    exists|i: int| 0 <= i < names.len() && #[trigger] names[i]@ == name
}

/// The offer is shown: its world is named and is not one of `worlds`.
pub open spec fn listing_shown(l: MarketListing, worlds: Seq<String>) -> bool {
    &&& l.world_name is Some
    &&& !is_listed(worlds, l.world_name->Some_0@)
}

/// The value of an offer's field: "**{total}Gil**({price}Gil/per * {total / price})".
pub open spec fn listing_text(l: MarketListing) -> Seq<char> {
    "**"@ + decimal(l.total as nat) + "Gil**("@ + decimal(l.price_per_unit as nat) + "Gil/per * "@
        + decimal((l.total / l.price_per_unit) as nat) + ")"@
}

/// The field that shows an offer: its world as title, its prices as value.
pub open spec fn listing_field(l: MarketListing) -> FieldView {
    FieldView { name: l.world_name->Some_0@, value: listing_text(l), inline: false }
}

/// The fields that show the offers of `listings` that are shown, in order.
pub open spec fn listing_fields_spec(listings: Seq<MarketListing>, worlds: Seq<String>) -> Seq<FieldView>
    decreases listings.len(),
{
    if listings.len() == 0 {
        Seq::empty()
    } else {
        let rest = listing_fields_spec(listings.drop_last(), worlds);
        if listing_shown(listings.last(), worlds) {
            rest.push(listing_field(listings.last()))
        } else {
            rest
        }
    }
}

/// Every offer that is shown has a price per unit, which the shown quotient divides by.
pub open spec fn shown_prices_nonzero(listings: Seq<MarketListing>, worlds: Seq<String>) -> bool {
    forall|i: int|
        0 <= i < listings.len() && listing_shown(#[trigger] listings[i], worlds)
            ==> listings[i].price_per_unit != 0
}

/// Whether `name` is one of `names`.
fn is_listed_exec(names: &Vec<String>, name: &String) -> (b: bool)
    ensures
        b == is_listed(names@, name@),
{
    let mut i: usize = 0;
    while i < names.len()
        invariant
            i <= names.len(),
            forall|j: int| 0 <= j < i ==> names@[j]@ != name@,
        decreases names.len() - i,
    {
        if names[i] == *name {
            return true;
        }
        i = i + 1;
    }
    false
}

/// Whether every offer that would be shown has a price per unit, so that the market
/// message can be made.
pub fn shown_prices_nonzero_exec(listings: &Vec<MarketListing>, worlds: &Vec<String>) -> (b: bool)
    ensures
        b == shown_prices_nonzero(listings@, worlds@),
{
    let mut i: usize = 0;
    while i < listings.len()
        invariant
            i <= listings.len(),
            forall|j: int|
                0 <= j < i && listing_shown(#[trigger] listings@[j], worlds@)
                    ==> listings@[j].price_per_unit != 0,
        decreases listings.len() - i,
    {
        let l = &listings[i];
        match &l.world_name {
            Some(w) => {
                if !is_listed_exec(worlds, w) && l.price_per_unit == 0 {
                    assert(listing_shown(listings@[i as int], worlds@));
                    return false;
                }
            },
            None => {},
        }
        i = i + 1;
    }
    true
}

/// The value of an offer's field.
fn listing_value(l: &MarketListing) -> (s: String)
    requires
        l.price_per_unit != 0,
    ensures
        s@ == listing_text(*l),
{
    let total = decimal_string(l.total as u64);
    let price = decimal_string(l.price_per_unit as u64);
    let count = decimal_string((l.total / l.price_per_unit) as u64);
    let s = concat_str("**", total.as_str());
    let s = concat_str(s.as_str(), "Gil**(");
    let s = concat_str(s.as_str(), price.as_str());
    let s = concat_str(s.as_str(), "Gil/per * ");
    let s = concat_str(s.as_str(), count.as_str());
    concat_str(s.as_str(), ")")
}

/// The fields that show the offers in `listings`: one for each offer whose world is named
/// and is not one of `worlds`, in order.
pub fn listing_fields(listings: &Vec<MarketListing>, worlds: &Vec<String>) -> (r: Vec<EmbedField>)
    requires
        shown_prices_nonzero(listings@, worlds@),
    ensures
        r@.map_values(|f: EmbedField| f@) == listing_fields_spec(listings@, worlds@),
{
    let mut r: Vec<EmbedField> = Vec::new();
    let mut i: usize = 0;
    while i < listings.len()
        invariant
            i <= listings.len(),
            shown_prices_nonzero(listings@, worlds@),
            r@.map_values(|f: EmbedField| f@) == listing_fields_spec(listings@.take(i as int), worlds@),
        decreases listings.len() - i,
    {
        let l = &listings[i];
        assert(listings@.take(i + 1).drop_last() =~= listings@.take(i as int));
        assert(listings@.take(i + 1).last() == *l);
        match &l.world_name {
            Some(w) => {
                if !is_listed_exec(worlds, w) {
                    let ghost old_r = r@;
                    let value = listing_value(l);
                    r.push(EmbedField { name: w.clone(), value, inline: false });
                    assert(r@.map_values(|f: EmbedField| f@) =~= old_r.map_values(
                        |f: EmbedField| f@,
                    ).push(listing_field(*l)));
                }
            },
            None => {},
        }
        i = i + 1;
    }
    assert(listings@.take(listings.len() as int) =~= listings@);
    r
}

/// The author line of the market messages.
pub open spec fn market_author() -> Seq<char> {
    "Market Information"@
}

/// The message that shows the market board of an item: its Japanese name, its icon and
/// the offers that `listing_fields` shows.
pub open spec fn market_view(
    item_ja: Seq<char>,
    icon_url: Seq<char>,
    listings: Seq<MarketListing>,
    worlds: Seq<String>,
    color: u32,
) -> EmbedView {
    EmbedView {
        author: Some(market_author()),
        author_url: None,
        description: Some("**"@ + item_ja + "**のマーケット情報を表示しています。"@),
        color: Some(color),
        thumbnail: Some(icon_url),
        fields: listing_fields_spec(listings, worlds),
    }
}

/// The message that shows the market board of an item.
pub fn market_embed(
    item_ja: &str,
    icon_url: &str,
    listings: &Vec<MarketListing>,
    worlds: &Vec<String>,
    color: u32,
) -> (e: Embed)
    requires
        shown_prices_nonzero(listings@, worlds@),
    ensures
        e@ == market_view(item_ja@, icon_url@, listings@, worlds@, color),
{
    let d = concat_str("**", item_ja);
    let d = concat_str(d.as_str(), "**のマーケット情報を表示しています。");
    Embed {
        author: Some(String::from_str("Market Information")),
        author_url: None,
        description: Some(d),
        color: Some(color),
        thumbnail: Some(String::from_str(icon_url)),
        fields: listing_fields(listings, worlds),
    }
}

/// The message sent when no item has the name or id asked for.
pub open spec fn item_not_found_view(color: u32) -> EmbedView {
    EmbedView {
        author: Some("エラー"@),
        author_url: None,
        description: Some("アイテムが見つかりませんでした。"@),
        color: Some(color),
        thumbnail: None,
        fields: Seq::empty(),
    }
}

/// The message sent when no item has the name or id asked for.
pub fn item_not_found_embed(color: u32) -> (e: Embed)
    ensures
        e@ == item_not_found_view(color),
{
    let e = Embed {
        author: Some(String::from_str("エラー")),
        author_url: None,
        description: Some(String::from_str("アイテムが見つかりませんでした。")),
        color: Some(color),
        thumbnail: None,
        fields: Vec::new(),
    };
    assert(e@.fields =~= Seq::empty());
    e
}

/// The message sent when the market data service answers with a failure `status`
/// (its code and reason, as written by the HTTP client).
pub open spec fn market_failure_view(status: Seq<char>, color: u32) -> EmbedView {
    EmbedView {
        author: Some("エラー"@),
        author_url: None,
        description: Some("マーケット情報の取得に失敗しました。ステータスコード: "@ + status),
        color: Some(color),
        thumbnail: None,
        fields: Seq::empty(),
    }
}

/// The message sent when the market data service answers with a failure `status`.
pub fn market_failure_embed(status: &str, color: u32) -> (e: Embed)
    ensures
        e@ == market_failure_view(status@, color),
{
    let e = Embed {
        author: Some(String::from_str("エラー")),
        author_url: None,
        description: Some(concat_str("マーケット情報の取得に失敗しました。ステータスコード: ", status)),
        color: Some(color),
        thumbnail: None,
        fields: Vec::new(),
    };
    assert(e@.fields =~= Seq::empty());
    e
}

/// The address of the market board of item `item_id` in region `location`.
pub open spec fn market_url_spec(location: DataCenterLocation, item_id: u16) -> Seq<char> {
    "https://universalis.app/api/v2/"@ + location.spec_name() + "/"@ + decimal(item_id as nat)
}

/// The address of the market board of item `item_id` in region `location`.
pub fn market_url(location: DataCenterLocation, item_id: u16) -> (s: String)
    ensures
        s@ == market_url_spec(location, item_id),
{
    let id = decimal_string(item_id as u64);
    let s = concat_str("https://universalis.app/api/v2/", location.name());
    let s = concat_str(s.as_str(), "/");
    concat_str(s.as_str(), id.as_str())
}

/// The parts of the market board that the message asks the service for.
pub open spec fn market_fields() -> Seq<Seq<char>> {
    seq![
        "lastUploadTime"@,
        "listings"@,
        "unitsForSale"@,
        "unitsSold"@,
        "currentAveragePrice"@,
        "regularSaleVelocity"@,
        "minPrice"@,
        "maxPrice"@,
    ]
}

/// The query of the market board request: eight offers, and the parts in `market_fields`
/// joined by commas.
pub fn market_query() -> (q: Vec<(String, String)>)
    ensures
        q@.len() == 2,
        q@[0].0@ == "listings"@,
        q@[0].1@ == "8"@,
        q@[1].0@ == "fields"@,
        q@[1].1@ == joined(market_fields(), ","@),
{
    let mut parts: Vec<String> = Vec::new();
    parts.push(String::from_str("lastUploadTime"));
    parts.push(String::from_str("listings"));
    parts.push(String::from_str("unitsForSale"));
    parts.push(String::from_str("unitsSold"));
    parts.push(String::from_str("currentAveragePrice"));
    parts.push(String::from_str("regularSaleVelocity"));
    parts.push(String::from_str("minPrice"));
    parts.push(String::from_str("maxPrice"));
    assert(parts@.map_values(|p: String| p@) =~= market_fields());
    let fields = join(&parts, ",");
    let mut q: Vec<(String, String)> = Vec::new();
    q.push((String::from_str("listings"), String::from_str("8")));
    q.push((String::from_str("fields"), fields));
    q
}

/// The address of the description of item `item_id` at the item database.
pub open spec fn item_info_url_spec(item_id: u16) -> Seq<char> {
    "https://xivapi.com/Item/"@ + decimal(item_id as nat)
}

/// The address of the description of item `item_id` at the item database.
pub fn item_info_url(item_id: u16) -> (s: String)
    ensures
        s@ == item_info_url_spec(item_id),
{
    let id = decimal_string(item_id as u64);
    concat_str("https://xivapi.com/Item/", id.as_str())
}

/// The query of the item description request: names in snake case, and only the icons.
pub fn item_info_query() -> (q: Vec<(String, String)>)
    ensures
        q@.len() == 2,
        q@[0].0@ == "snake_case"@,
        q@[0].1@ == "1"@,
        q@[1].0@ == "columns"@,
        q@[1].1@ == "Icon,IconHD"@,
{
    let mut q: Vec<(String, String)> = Vec::new();
    q.push((String::from_str("snake_case"), String::from_str("1")));
    q.push((String::from_str("columns"), String::from_str("Icon,IconHD")));
    q
}

/// The id of the wish list button under the message of the invocation `context_id`.
pub open spec fn wishlist_button_id_spec(context_id: u64) -> Seq<char> {
    decimal(context_id as nat) + "-add-wishlist"@
}

/// The button that adds the item to the user's wish list.
pub fn wishlist_button(context_id: u64) -> (b: Button)
    ensures
        b@ == (ButtonView {
            custom_id: wishlist_button_id_spec(context_id),
            emoji: '📋',
            label: Some("欲しいものリストに追加"@),
        }),
{
    let id = decimal_string(context_id);
    Button {
        custom_id: concat_str(id.as_str(), "-add-wishlist"),
        emoji: '📋',
        label: Some(String::from_str("欲しいものリストに追加")),
    }
}

/// Whether a press with id `custom_id` is one on the wish list button of `context_id`.
pub fn is_wishlist_press(context_id: u64, custom_id: &str) -> (b: bool)
    ensures
        b == (custom_id@ == wishlist_button_id_spec(context_id)),
{
    let id = decimal_string(context_id);
    let want = concat_str(id.as_str(), "-add-wishlist");
    equal_str(custom_id, want.as_str())
}

/// The answer to a press on the wish list button.
#[derive(Clone, Debug, PartialEq, Eq)]
pub enum WishlistReply {
    /// The item is on the user's wish list already: tell the user so, and change nothing.
    AlreadyListed(Embed),
    /// The item is not on it: add the item, and tell the user.
    Add(Embed),
}

/// The message that tells the user about the wish list: `text` after the item's name.
pub open spec fn wishlist_view(item_ja: Seq<char>, text: Seq<char>, color: u32) -> EmbedView {
    EmbedView {
        author: Some("Wishlist"@),
        author_url: None,
        description: Some("**"@ + item_ja + text),
        color: Some(color),
        thumbnail: None,
        fields: Seq::empty(),
    }
}

/// The answer to a press on the wish list button, where `already_listed` tells whether the
/// user's wish list holds the item.
pub fn wishlist_reply(already_listed: bool, item_ja: &str, color_info: u32, color_success: u32) -> (r:
    WishlistReply)
    ensures
        already_listed ==> (r matches WishlistReply::AlreadyListed(e) && e@ == wishlist_view(
            item_ja@,
            "**はすでに欲しいものリストに追加されています。"@,
            color_info,
        )),
        !already_listed ==> (r matches WishlistReply::Add(e) && e@ == wishlist_view(
            item_ja@,
            "**を欲しいものリストに追加しました。"@,
            color_success,
        )),
{
    let d = concat_str("**", item_ja);
    if already_listed {
        let e = Embed {
            author: Some(String::from_str("Wishlist")),
            author_url: None,
            description: Some(concat_str(d.as_str(), "**はすでに欲しいものリストに追加されています。")),
            color: Some(color_info),
            thumbnail: None,
            fields: Vec::new(),
        };
        assert(e@.fields =~= Seq::empty());
        WishlistReply::AlreadyListed(e)
    } else {
        let e = Embed {
            author: Some(String::from_str("Wishlist")),
            author_url: None,
            description: Some(concat_str(d.as_str(), "**を欲しいものリストに追加しました。")),
            color: Some(color_success),
            thumbnail: None,
            fields: Vec::new(),
        };
        assert(e@.fields =~= Seq::empty());
        WishlistReply::Add(e)
    }
}


/// The market message shows no more fields than offers, and no offer from a world of the
/// data center asked about: each field's title is a named world outside `worlds`.
pub proof fn lemma_fields_skip_own_worlds(listings: Seq<MarketListing>, worlds: Seq<String>)
    ensures
        listing_fields_spec(listings, worlds).len() <= listings.len(),
        forall|i: int|
            0 <= i < listing_fields_spec(listings, worlds).len() ==> !is_listed(
                worlds,
                (#[trigger] listing_fields_spec(listings, worlds)[i]).name,
            ),
    decreases listings.len(),
{
    if listings.len() > 0 {
        lemma_fields_skip_own_worlds(listings.drop_last(), worlds);
    }
}


/// The market board address names the region by the service's name for it, then the
/// item's id in decimal.
pub proof fn lemma_market_url_regions(item_id: u16)
    ensures
        market_url_spec(DataCenterLocation::Japan, item_id) == "https://universalis.app/api/v2/"@
            + "Japan"@ + "/"@ + decimal(item_id as nat),
        market_url_spec(DataCenterLocation::NorthAmerica, item_id)
            == "https://universalis.app/api/v2/"@ + "North-America"@ + "/"@ + decimal(
            item_id as nat,
        ),
        market_url_spec(DataCenterLocation::Europe, item_id) == "https://universalis.app/api/v2/"@
            + "Europe"@ + "/"@ + decimal(item_id as nat),
        market_url_spec(DataCenterLocation::Oceania, item_id) == "https://universalis.app/api/v2/"@
            + "Oceania"@ + "/"@ + decimal(item_id as nat),
        market_url_spec(DataCenterLocation::China, item_id) == "https://universalis.app/api/v2/"@
            + "China"@ + "/"@ + decimal(item_id as nat),
        item_info_url_spec(item_id) == "https://xivapi.com/Item/"@ + decimal(item_id as nat),
{
}

/// No offers show no fields; one more offer adds, where its world is named and is not one
/// of `worlds`, one field at the end: the world as title, and as value the full total,
/// the unit price and the number of units, all in decimal.
pub proof fn lemma_listing_fields_append(
    listings: Seq<MarketListing>,
    worlds: Seq<String>,
    l: MarketListing,
)
    ensures
        listing_fields_spec(Seq::empty(), worlds) == Seq::<FieldView>::empty(),
        listing_fields_spec(listings.push(l), worlds) == if l.world_name is Some && !(exists|i: int|
            0 <= i < worlds.len() && #[trigger] worlds[i]@ == l.world_name->Some_0@) {
            listing_fields_spec(listings, worlds).push(
                FieldView {
                    name: l.world_name->Some_0@,
                    value: "**"@ + decimal(l.total as nat) + "Gil**("@ + decimal(
                        l.price_per_unit as nat,
                    ) + "Gil/per * "@ + decimal((l.total / l.price_per_unit) as nat) + ")"@,
                    inline: false,
                },
            )
        } else {
            listing_fields_spec(listings, worlds)
        },
{
    assert(listings.push(l).drop_last() =~= listings);
}


/// The texts of the market messages: the error messages, the market message, the wish
/// list button and the two wish list answers.
pub proof fn lemma_market_texts(
    item_ja: Seq<char>,
    icon_url: Seq<char>,
    listings: Seq<MarketListing>,
    worlds: Seq<String>,
    status: Seq<char>,
    context_id: u64,
    color: u32,
)
    ensures
        item_not_found_view(color).author == Some("エラー"@),
        item_not_found_view(color).description == Some("アイテムが見つかりませんでした。"@),
        item_not_found_view(color).color == Some(color),
        item_not_found_view(color).fields.len() == 0,
        market_failure_view(status, color).author == Some("エラー"@),
        market_failure_view(status, color).description == Some(
            "マーケット情報の取得に失敗しました。ステータスコード: "@ + status,
        ),
        market_failure_view(status, color).color == Some(color),
        market_view(item_ja, icon_url, listings, worlds, color).author == Some(
            "Market Information"@,
        ),
        market_view(item_ja, icon_url, listings, worlds, color).description == Some(
            "**"@ + item_ja + "**のマーケット情報を表示しています。"@,
        ),
        market_view(item_ja, icon_url, listings, worlds, color).thumbnail == Some(icon_url),
        market_view(item_ja, icon_url, listings, worlds, color).color == Some(color),
        wishlist_button_id_spec(context_id) == decimal(context_id as nat) + "-add-wishlist"@,
        wishlist_view(item_ja, "**はすでに欲しいものリストに追加されています。"@, color).author
            == Some("Wishlist"@),
        wishlist_view(item_ja, "**はすでに欲しいものリストに追加されています。"@, color).description
            == Some("**"@ + item_ja + "**はすでに欲しいものリストに追加されています。"@),
        wishlist_view(item_ja, "**を欲しいものリストに追加しました。"@, color).description == Some(
            "**"@ + item_ja + "**を欲しいものリストに追加しました。"@,
        ),
        market_fields() == seq![
            "lastUploadTime"@,
            "listings"@,
            "unitsForSale"@,
            "unitsSold"@,
            "currentAveragePrice"@,
            "regularSaleVelocity"@,
            "minPrice"@,
            "maxPrice"@,
        ],
{
}

} // verus!
