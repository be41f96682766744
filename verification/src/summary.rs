use vstd::prelude::*;

verus! {

/// Shape of the fallback summary built from an author label alone:
/// `(Read more from <author>...)`.
pub open spec fn default_summary(author: Seq<char>) -> Seq<char> {
    "(Read more from "@ + author + "...)"@
}

/// The summary capability: a record that can label its author and render a
/// one-line synopsis of itself. `summarize` falls back to a generic
/// read-more line built from the author label unless an implementor
/// overrides it.
pub trait Summary {
    /// The author label that `summarize_author` returns, as a sequence of
    /// characters.
    spec fn author_spec(&self) -> Seq<char>;

    fn summarize_author(&self) -> (r: String)
        ensures
            r@ == self.author_spec(),
    ;

    fn summarize(&self) -> (r: String)
        default_ensures
            r@ == default_summary(self.author_spec()),
    {
        let author = self.summarize_author();
        let mut r = String::from_str("(Read more from ");
        r.append(author.as_str());
        r.append("...)");
        proof {
            assert(r@ =~= default_summary(self.author_spec()));
        }
        r
    }
}

/// A news article: author, headline and article text.
pub struct NewsArticle {
    pub author: String,
    pub headline: String,
    pub content: String,
}

impl NewsArticle {
    /// The synopsis an article renders: `<headline>, by <author>`. It reads
    /// only the headline and the author, never the article text.
    pub open spec fn summary(&self) -> Seq<char> {
        self.headline@ + ", by "@ + self.author@
    }
}

impl Summary for NewsArticle {
    open spec fn author_spec(&self) -> Seq<char> {
        self.author@
    }

    fn summarize_author(&self) -> (r: String) {
        self.author.clone()
    }

    fn summarize(&self) -> (r: String)
        ensures
            r@ == self.summary(),
    {
        let mut r = self.headline.clone();
        r.append(", by ");
        r.append(self.author.as_str());
        r
    }
}

/// A short post: author handle, message text and two delivery flags.
pub struct Tweet {
    pub username: String,
    pub content: String,
    pub reply: bool,
    pub retweet: bool,
}

impl Tweet {
    /// The synopsis a post renders: `<username>, by <content>`. It reads
    /// only the handle and the message text, never the two flags.
    pub open spec fn summary(&self) -> Seq<char> {
        self.username@ + ", by "@ + self.content@
    }
}

impl Summary for Tweet {
    open spec fn author_spec(&self) -> Seq<char> {
        self.username@
    }

    fn summarize_author(&self) -> (r: String) {
        self.username.clone()
    }

    fn summarize(&self) -> (r: String)
        ensures
            r@ == self.summary(),
    {
        let mut r = self.username.clone();
        r.append(", by ");
        r.append(self.content.as_str());
        r
    }
}

/// The line `notify` announces for a record: `Breaking news! ` followed by
/// whatever the record's `summarize` returned.
pub fn notify_line<T: Summary>(item: &T) -> (r: String)
    ensures
        exists|s: String|
            #[trigger] call_ensures(T::summarize, (item,), s) && r@ == "Breaking news! "@ + s@,
{
    let s = item.summarize();
    let mut r = String::from_str("Breaking news! ");
    r.append(s.as_str());
    r
}

/// A reduced capability whose fallback synopsis needs nothing from the
/// record at all: a fixed read-more line.
#[allow(non_camel_case_types)]
pub trait Summary_with_default {
    fn summarize(&self) -> (r: String)
        default_ensures
            r@ == "(Read more...)"@,
    {
        String::from_str("(Read more...)")
    }
}

/// Law: every value `NewsArticle::summarize` can return is exactly
/// `<headline>, by <author>`. The result is pinned by those two fields
/// alone, so it is independent of the article text and of whatever
/// `summarize_author` returns.
pub proof fn lemma_article_summarize_pinned(a: &NewsArticle, s: String)
    requires
        call_ensures(NewsArticle::summarize, (a,), s),
    ensures
        s@ == a.headline@ + ", by "@ + a.author@,
{
}

/// Law: every value `Tweet::summarize` can return is exactly
/// `<username>, by <content>`. The result is pinned by those two fields
/// alone, so it is independent of the reply and retweet flags and of
/// whatever `summarize_author` returns.
pub proof fn lemma_tweet_summarize_pinned(t: &Tweet, s: String)
    requires
        call_ensures(Tweet::summarize, (t,), s),
    ensures
        s@ == t.username@ + ", by "@ + t.content@,
{
}

/// Law: the article text never reaches the synopsis. Two articles that
/// agree on headline and author have the same summary, whatever their
/// content fields hold.
pub proof fn lemma_article_summary_ignores_content(a1: &NewsArticle, a2: &NewsArticle)
    requires
        a1.headline@ == a2.headline@,
        a1.author@ == a2.author@,
    ensures
        a1.summary() == a2.summary(),
{
}

/// Law: the two delivery flags never reach the synopsis. Two tweets that
/// agree on username and content have the same summary, whatever their
/// reply and retweet flags hold.
pub proof fn lemma_tweet_summary_ignores_flags(t1: &Tweet, t2: &Tweet)
    requires
        t1.username@ == t2.username@,
        t1.content@ == t2.content@,
    ensures
        t1.summary() == t2.summary(),
{
}

/// Law: for an article, the announced line is exactly `Breaking news! `
/// followed by the article's own synopsis.
pub proof fn lemma_notify_line_article(a: &NewsArticle, r: String)
    requires
        call_ensures(notify_line::<NewsArticle>, (a,), r),
    ensures
        r@ == "Breaking news! "@ + a.summary(),
{
    let s = choose|s: String|
        call_ensures(NewsArticle::summarize, (a,), s) && r@ == "Breaking news! "@ + s@;
    lemma_article_summarize_pinned(a, s);
}

/// Law: for a tweet, the announced line is exactly `Breaking news! `
/// followed by the tweet's own synopsis.
pub proof fn lemma_notify_line_tweet(t: &Tweet, r: String)
    requires
        call_ensures(notify_line::<Tweet>, (t,), r),
    ensures
        r@ == "Breaking news! "@ + t.summary(),
{
    let s = choose|s: String|
        call_ensures(Tweet::summarize, (t,), s) && r@ == "Breaking news! "@ + s@;
    lemma_tweet_summarize_pinned(t, s);
}

} // verus!
