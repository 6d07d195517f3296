//! The logic of a chat bot about a game's market board and news: data centers and their
//! regions, autocompletion of item and data center names, the messages that the bot
//! sends, and the page flipping of paged messages. The bot's commands themselves, which
//! talk to the chat service, the database and the web services, stand in app/.

use vstd::prelude::*;

pub mod about;
pub mod autocomplete;
pub mod datacenter;
pub mod embed;
pub mod items;
pub mod market;
pub mod market_flow;
pub mod news;
pub mod paginate;
pub mod text;

verus! {

} // verus!
