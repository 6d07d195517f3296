use vstd::prelude::*;

use crate::embed::{Embed, EmbedView};

verus! {

/// The colour of the introduction message.
pub const ABOUT_COLOR: u32 = 0x0073d1;

/// The introduction message that the about command sends.
pub open spec fn about_view() -> EmbedView {
    EmbedView {
        author: Some("About"@),
        author_url: None,
        description: Some("FF14の各種情報を提供します。"@),
        color: Some(ABOUT_COLOR),
        thumbnail: None,
        fields: Seq::empty(),
    }
}

/// The introduction message that the about command sends.
pub fn about_embed() -> (e: Embed)
    ensures
        e@ == about_view(),
{
    let e = Embed {
        author: Some(String::from_str("About")),
        author_url: None,
        description: Some(String::from_str("FF14の各種情報を提供します。")),
        color: Some(ABOUT_COLOR),
        thumbnail: None,
        fields: Vec::new(),
    };
    assert(e@.fields =~= Seq::empty());
    e
}


/// The introduction message: "About" as author, the bot's purpose as description, in the
/// colour 0x0073d1, with no fields.
pub proof fn lemma_about_text()
    ensures
        about_view().author == Some("About"@),
        about_view().description == Some("FF14の各種情報を提供します。"@),
        about_view().color == Some(0x0073d1u32),
        about_view().fields.len() == 0,
{
}

} // verus!
