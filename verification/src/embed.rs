use vstd::prelude::*;

verus! {

/// One titled field of a rich message.
#[derive(Clone, Debug, PartialEq, Eq)]
pub struct EmbedField {
    pub name: String,
    pub value: String,
    pub inline: bool,
}

/// The content of a rich message, as plain values: what the chat client shows.
#[derive(Clone, Debug, PartialEq, Eq)]
pub struct Embed {
    pub author: Option<String>,
    pub author_url: Option<String>,
    pub description: Option<String>,
    pub color: Option<u32>,
    pub thumbnail: Option<String>,
    pub fields: Vec<EmbedField>,
}

/// A clickable button under a message.
#[derive(Clone, Debug, PartialEq, Eq)]
pub struct Button {
    pub custom_id: String,
    pub emoji: char,
    pub label: Option<String>,
}

/// A field as texts.
pub struct FieldView {
    pub name: Seq<char>,
    pub value: Seq<char>,
    pub inline: bool,
}

/// A rich message as texts.
pub struct EmbedView {
    pub author: Option<Seq<char>>,
    pub author_url: Option<Seq<char>>,
    pub description: Option<Seq<char>>,
    pub color: Option<u32>,
    pub thumbnail: Option<Seq<char>>,
    pub fields: Seq<FieldView>,
}

/// A button as texts.
pub struct ButtonView {
    pub custom_id: Seq<char>,
    pub emoji: char,
    pub label: Option<Seq<char>>,
}

/// The text of an optional string.
pub open spec fn opt_text(o: Option<String>) -> Option<Seq<char>> {
    match o {
        Some(s) => Some(s@),
        None => None,
    }
}

impl View for EmbedField {
    type V = FieldView;

    open spec fn view(&self) -> FieldView {
        FieldView { name: self.name@, value: self.value@, inline: self.inline }
    }
}

impl View for Embed {
    type V = EmbedView;

    open spec fn view(&self) -> EmbedView {
        EmbedView {
            author: opt_text(self.author),
            author_url: opt_text(self.author_url),
            description: opt_text(self.description),
            color: self.color,
            thumbnail: opt_text(self.thumbnail),
            fields: self.fields@.map_values(|f: EmbedField| f@),
        }
    }
}

impl View for Button {
    type V = ButtonView;

    open spec fn view(&self) -> ButtonView {
        ButtonView { custom_id: self.custom_id@, emoji: self.emoji, label: opt_text(self.label) }
    }
}

} // verus!
