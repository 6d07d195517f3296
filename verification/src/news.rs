use vstd::prelude::*;

use crate::autocomplete::at_most;
use crate::embed::{Embed, EmbedField, EmbedView, FieldView};
use crate::text::{concat_str, first_chars, take_chars};

verus! {

/// One topic of the game's news feed.
#[derive(Clone, Debug, PartialEq, Eq)]
pub struct News {
    pub id: String,
    pub url: String,
    pub title: String,
    pub image: String,
    pub description: String,
}

/// How many topics the news message shows at most.
pub const NEWS_LIMIT: usize = 10;

/// How many characters of a topic's description the news message shows.
pub const PREVIEW_CHARS: usize = 20;

/// The address of the news feed.
pub open spec fn news_feed_url_spec() -> Seq<char> {
    "https://lodestonenews.com/news/topics?locale=jp"@
}

/// The address of the game's news site, which failure messages link to.
pub open spec fn lodestone_url_spec() -> Seq<char> {
    "https://jp.finalfantasyxiv.com/lodestone/"@
}

/// The author line of the news messages.
pub open spec fn news_author() -> Seq<char> {
    "FF14 Lodestone News"@
}

/// The address of the news feed.
pub fn news_feed_url() -> (s: String)
    ensures
        s@ == news_feed_url_spec(),
{
    String::from_str("https://lodestonenews.com/news/topics?locale=jp")
}

/// Whether the feed's answer, with HTTP status `status`, carries the news.
pub fn is_news_ok(status: u16) -> (b: bool)
    ensures
        b == (status == 200),
{
    status == 200
}

/// The field that shows a topic: its title, and a link to it whose text is the first
/// characters of its description followed by "...".
pub open spec fn news_field(n: News) -> FieldView {
    FieldView {
        name: n.title@,
        value: "["@ + first_chars(n.description@, PREVIEW_CHARS as nat) + "..."@ + "]("@ + n.url@
            + ")"@,
        inline: false,
    }
}

/// The message that shows the first `NEWS_LIMIT` topics of `news`.
pub open spec fn news_view(news: Seq<News>) -> EmbedView {
    EmbedView {
        author: Some(news_author()),
        author_url: Some(Seq::empty()),
        description: None,
        color: None,
        thumbnail: None,
        fields: at_most(news, NEWS_LIMIT as nat).map_values(|n: News| news_field(n)),
    }
}

/// The field that shows a topic.
fn news_field_exec(n: &News) -> (f: EmbedField)
    ensures
        f@ == news_field(*n),
{
    let preview = take_chars(n.description.as_str(), PREVIEW_CHARS);
    let v = concat_str("[", preview.as_str());
    let v = concat_str(v.as_str(), "...");
    let v = concat_str(v.as_str(), "](");
    let v = concat_str(v.as_str(), n.url.as_str());
    let v = concat_str(v.as_str(), ")");
    EmbedField { name: n.title.clone(), value: v, inline: false }
}

/// The message that shows the first `NEWS_LIMIT` topics of `news`, in order.
pub fn news_embed(news: &Vec<News>) -> (e: Embed)
    ensures
        e@ == news_view(news@),
{
    let mut fields: Vec<EmbedField> = Vec::new();
    let mut i: usize = 0;
    while i < news.len() && i < NEWS_LIMIT
        invariant
            i <= news.len(),
            i <= NEWS_LIMIT,
            fields@.map_values(|f: EmbedField| f@) == news@.take(i as int).map_values(
                |n: News| news_field(n),
            ),
        decreases news.len() - i,
    {
        let ghost old_fields = fields@;
        fields.push(news_field_exec(&news[i]));
        assert(fields@.map_values(|f: EmbedField| f@) =~= old_fields.map_values(
            |f: EmbedField| f@,
        ).push(news_field(news@[i as int])));
        assert(news@.take(i + 1) =~= news@.take(i as int).push(news@[i as int]));
        i = i + 1;
        assert(fields@.map_values(|f: EmbedField| f@) =~= news@.take(i as int).map_values(
            |n: News| news_field(n),
        ));
    }
    if i == news.len() {
        assert(news@.take(i as int) =~= news@);
    }
    let e = Embed {
        author: Some(String::from_str("FF14 Lodestone News")),
        author_url: Some(String::new()),
        description: None,
        color: None,
        thumbnail: None,
        fields,
    };
    assert(e@.fields =~= at_most(news@, NEWS_LIMIT as nat).map_values(|n: News| news_field(n)));
    e
}

/// The message sent when the feed answers with a status other than success (its code
/// and reason, as written by the HTTP client).
pub open spec fn news_failure_view(status: Seq<char>) -> EmbedView {
    EmbedView {
        author: Some(news_author()),
        author_url: Some(lodestone_url_spec()),
        description: Some("エラーが発生しました。ステータスコード: "@ + status),
        color: None,
        thumbnail: None,
        fields: Seq::empty(),
    }
}

/// The message sent when the feed answers with a status other than success.
pub fn news_failure_embed(status: &str) -> (e: Embed)
    ensures
        e@ == news_failure_view(status@),
{
    let e = Embed {
        author: Some(String::from_str("FF14 Lodestone News")),
        author_url: Some(String::from_str("https://jp.finalfantasyxiv.com/lodestone/")),
        description: Some(concat_str("エラーが発生しました。ステータスコード: ", status)),
        color: None,
        thumbnail: None,
        fields: Vec::new(),
    };
    assert(e@.fields =~= Seq::empty());
    e
}

/// The message sent when the feed cannot be reached: the error's text in a code block.
pub open spec fn news_unreachable_view(error: Seq<char>) -> EmbedView {
    EmbedView {
        author: Some(news_author()),
        author_url: Some(lodestone_url_spec()),
        description: Some("エラーが発生しました。\n```\n"@ + error + "\n```"@),
        color: None,
        thumbnail: None,
        fields: Seq::empty(),
    }
}

/// The message sent when the feed cannot be reached.
pub fn news_unreachable_embed(error: &str) -> (e: Embed)
    ensures
        e@ == news_unreachable_view(error@),
{
    let d = concat_str("エラーが発生しました。\n```\n", error);
    let e = Embed {
        author: Some(String::from_str("FF14 Lodestone News")),
        author_url: Some(String::from_str("https://jp.finalfantasyxiv.com/lodestone/")),
        description: Some(concat_str(d.as_str(), "\n```")),
        color: None,
        thumbnail: None,
        fields: Vec::new(),
    };
    assert(e@.fields =~= Seq::empty());
    e
}


/// How the news feed answered the request.
#[derive(Clone, Debug, PartialEq, Eq)]
pub enum NewsAnswer {
    /// The feed could not be reached; the error as text.
    Unreachable(String),
    /// The feed answered with HTTP status `code`, written as `text` (code and reason).
    Status { code: u16, text: String },
}

/// What the news command does with the feed's answer.
#[derive(Clone, Debug, PartialEq, Eq)]
pub enum NewsAction {
    /// Read the topics from the answer's body and send `news_embed` of them.
    ReadTopics,
    /// Send this message.
    Send(Embed),
}

/// What the news command does with the feed's answer: an answer with status 200 carries
/// the topics; any other status, and a feed out of reach, are reported.
pub fn news_after_answer(answer: &NewsAnswer) -> (a: NewsAction)
    ensures
        match answer {
            NewsAnswer::Unreachable(e) => a matches NewsAction::Send(m) && m@ == news_unreachable_view(
                e@,
            ),
            NewsAnswer::Status { code, text } => if *code == 200 {
                a == NewsAction::ReadTopics
            } else {
                a matches NewsAction::Send(m) && m@ == news_failure_view(text@)
            },
        },
{
    match answer {
        NewsAnswer::Unreachable(e) => NewsAction::Send(news_unreachable_embed(e.as_str())),
        NewsAnswer::Status { code, text } => {
            if is_news_ok(*code) {
                NewsAction::ReadTopics
            } else {
                NewsAction::Send(news_failure_embed(text.as_str()))
            }
        },
    }
}

/// The news message shows the first topics of the feed, as many as there are up to
/// `NEWS_LIMIT`, each titled with its own topic's title and linking to its own topic's
/// address with the first 20 characters of its description followed by "...".
pub proof fn lemma_news_shows_first_topics(news: Seq<News>)
    ensures
        news_view(news).fields.len() == if news.len() < 10 {
            news.len()
        } else {
            10
        },
        forall|i: int|
            0 <= i < news_view(news).fields.len() ==> #[trigger] news_view(news).fields[i] == (
            FieldView {
                name: news[i].title@,
                value: "["@ + first_chars(news[i].description@, 20) + "..."@ + "]("@ + news[i].url@
                    + ")"@,
                inline: false,
            }),
        news_view(news).author == Some("FF14 Lodestone News"@),
{
}


/// The texts of the news messages: the feed's address, and the two failure messages,
/// which link to the news site.
pub proof fn lemma_news_texts(status: Seq<char>, error: Seq<char>)
    ensures
        news_feed_url_spec() == "https://lodestonenews.com/news/topics?locale=jp"@,
        news_failure_view(status).author == Some("FF14 Lodestone News"@),
        news_failure_view(status).author_url == Some("https://jp.finalfantasyxiv.com/lodestone/"@),
        news_failure_view(status).description == Some("エラーが発生しました。ステータスコード: "@ + status),
        news_unreachable_view(error).author == Some("FF14 Lodestone News"@),
        news_unreachable_view(error).author_url == Some(
            "https://jp.finalfantasyxiv.com/lodestone/"@,
        ),
        news_unreachable_view(error).description == Some(
            "エラーが発生しました。\n```\n"@ + error + "\n```"@,
        ),
{
}

} // verus!
