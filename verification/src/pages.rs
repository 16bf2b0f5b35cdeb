//! The decisions of the blog's page handlers: login failure redirects,
//! logging out, and the notices shown when there is nothing to list.
use vstd::prelude::*;
use crate::cache::pages::Article;
use crate::text::{chars_of, decimal, push_char, push_decimal};

verus! {

/// The entity that stands for `c` in HTML text: `&`, `<`, `>`, `"` and `'`
/// are escaped, every other character stands for itself.
pub open spec fn html_escaped_char(c: char) -> Seq<char> {
    if c == '&' {
        "&amp;"@
    } else if c == '<' {
        "&lt;"@
    } else if c == '>' {
        "&gt;"@
    } else if c == '"' {
        "&quot;"@
    } else if c == '\'' {
        "&#x27;"@
    } else {
        seq![c]
    }
}

/// `s` with each character replaced by its HTML escape.
pub open spec fn html_escape(s: Seq<char>) -> Seq<char>
    decreases s.len(),
{
    if s.len() == 0 {
        Seq::empty()
    } else {
        html_escape(s.drop_last()) + html_escaped_char(s.last())
    }
}

/// Whether `char::is_alphanumeric` holds of `c` (a letter or a number in
/// Unicode's sense).
pub uninterp spec fn alphanumeric(c: char) -> bool;

/// `char::is_alphanumeric`. The contract names the result and states what
/// the documentation gives for ASCII: the letters `A`-`Z`, `a`-`z` and the
/// digits `0`-`9`, and no other ASCII character.
#[verifier::external_body]
fn is_alphanumeric(c: char) -> (r: bool)
    ensures
        r == alphanumeric(c),
        (c as nat) < 128 ==> (r <==> (('a' <= c && c <= 'z') || ('A' <= c && c <= 'Z') || ('0' <= c
            && c <= '9'))),
{
    c.is_alphanumeric()
}

/// A word character: alphanumeric, or `_`.
pub open spec fn word_char(c: char) -> bool {
    alphanumeric(c) || c == '_'
}

/// A character that the medium sanitizing keeps: a word character, a
/// space, a comma or a hyphen.
pub open spec fn medium_char(c: char) -> bool {
    word_char(c) || c == ' ' || c == ',' || c == '-'
}

/// Escaped text holds no markup: no `<`, `>`, `"` or `'`, and every `&` in
/// it opens an entity.
pub proof fn law_escaped_has_no_markup(s: Seq<char>)
    ensures
        forall|i: int|
            0 <= i < html_escape(s).len() ==> {
                let c = #[trigger] html_escape(s)[i];
                c != '<' && c != '>' && c != '"' && c != '\''
            },
    decreases s.len(),
{
    reveal_strlit("&amp;");
    reveal_strlit("&lt;");
    reveal_strlit("&gt;");
    reveal_strlit("&quot;");
    reveal_strlit("&#x27;");
    if s.len() > 0 {
        law_escaped_has_no_markup(s.drop_last());
        let prev = html_escape(s.drop_last());
        let last = html_escaped_char(s.last());
        assert forall|i: int| 0 <= i < html_escape(s).len() implies {
            let c = #[trigger] html_escape(s)[i];
            c != '<' && c != '>' && c != '"' && c != '\''
        } by {
            if i < prev.len() {
                assert(html_escape(s)[i] == prev[i]);
            } else {
                assert(html_escape(s)[i] == last[i - prev.len()]);
            }
        }
    }
}

/// The sanitized texts hold only the characters their sanitizing keeps:
/// word characters after the strict one; word characters, spaces, commas
/// and hyphens after the medium one.
pub proof fn law_sanitized_keeps_only_allowed(s: Seq<char>)
    ensures
        forall|i: int| 0 <= i < word_chars(s).len() ==> word_char(#[trigger] word_chars(s)[i]),
        forall|i: int| 0 <= i < medium_chars(s).len() ==> medium_char(#[trigger] medium_chars(s)[i]),
{
    broadcast use vstd::seq_lib::group_filter_ensures;

}

/// The word characters of `s`, in order.
pub open spec fn word_chars(s: Seq<char>) -> Seq<char> {
    s.filter(|c: char| word_char(c))
}

/// The characters of `s` that the medium sanitizing keeps, in order.
pub open spec fn medium_chars(s: Seq<char>) -> Seq<char> {
    s.filter(|c: char| medium_char(c))
}

/// The number of times `c` occurs in `s`.
pub open spec fn occurrences(s: Seq<char>, c: char) -> nat
    decreases s.len(),
{
    if s.len() == 0 {
        0
    } else {
        occurrences(s.drop_last(), c) + if s.last() == c {
            1nat
        } else {
            0nat
        }
    }
}

/// Escaping leaves alone every character other than `&`, `<`, `>`, `"` and
/// `'`: text without them is its own escape, and the escape of joined texts
/// is the escapes joined.
pub proof fn law_escape_keeps_plain_text(s: Seq<char>, t: Seq<char>)
    ensures
        (forall|i: int|
            0 <= i < s.len() ==> {
                let c = #[trigger] s[i];
                c != '&' && c != '<' && c != '>' && c != '"' && c != '\''
            }) ==> html_escape(s) == s,
        html_escape(s + t) == html_escape(s) + html_escape(t),
    decreases s.len() + t.len(),
{
    if s.len() > 0 {
        law_escape_keeps_plain_text(s.drop_last(), t);
        if forall|i: int|
            0 <= i < s.len() ==> {
                let c = #[trigger] s[i];
                c != '&' && c != '<' && c != '>' && c != '"' && c != '\''
            } {
            assert forall|i: int| 0 <= i < s.drop_last().len() implies {
                let c = #[trigger] s.drop_last()[i];
                c != '&' && c != '<' && c != '>' && c != '"' && c != '\''
            } by {
                assert(s.drop_last()[i] == s[i]);
            }
            let c = s[s.len() - 1];
            assert(c != '&' && c != '<' && c != '>' && c != '"' && c != '\'');
            assert(html_escape(s) == html_escape(s.drop_last()) + seq![s.last()]);
            assert(s.drop_last().push(s.last()) =~= s);
        }
    }
    if t.len() > 0 {
        law_escape_keeps_plain_text(s, t.drop_last());
        assert((s + t).drop_last() =~= s + t.drop_last());
        assert((s + t).last() == t.last());
        assert(html_escape(s + t) =~= html_escape(s) + html_escape(t));
    } else {
        assert(s + t =~= s);
        assert(html_escape(s) + html_escape(t) =~= html_escape(s));
    }
}

/// Strict sanitizing keeps every word character (alphanumeric, or `_`) as
/// many times as it occurs, and no other character.
pub proof fn law_strict_keeps_every_word_char(s: Seq<char>, c: char)
    ensures
        alphanumeric(c) || c == '_' ==> occurrences(word_chars(s), c) == occurrences(s, c),
        !(alphanumeric(c) || c == '_') ==> occurrences(word_chars(s), c) == 0,
    decreases s.len(),
{
    reveal_with_fuel(Seq::filter, 1);
    if s.len() > 0 {
        law_strict_keeps_every_word_char(s.drop_last(), c);
        let prev = word_chars(s.drop_last());
        if word_char(s.last()) {
            assert(word_chars(s) == prev.push(s.last()));
            assert(prev.push(s.last()).drop_last() =~= prev);
        } else {
            assert(word_chars(s) == prev);
        }
    }
}

/// Medium sanitizing keeps every word character, space, comma and hyphen
/// as many times as it occurs, and no other character.
pub proof fn law_medium_keeps_every_allowed_char(s: Seq<char>, c: char)
    ensures
        alphanumeric(c) || c == '_' || c == ' ' || c == ',' || c == '-' ==> occurrences(
            medium_chars(s),
            c,
        ) == occurrences(s, c),
        !(alphanumeric(c) || c == '_' || c == ' ' || c == ',' || c == '-') ==> occurrences(
            medium_chars(s),
            c,
        ) == 0,
    decreases s.len(),
{
    reveal_with_fuel(Seq::filter, 1);
    if s.len() > 0 {
        law_medium_keeps_every_allowed_char(s.drop_last(), c);
        let prev = medium_chars(s.drop_last());
        if medium_char(s.last()) {
            assert(medium_chars(s) == prev.push(s.last()));
            assert(prev.push(s.last()).drop_last() =~= prev);
        } else {
            assert(medium_chars(s) == prev);
        }
    }
}

/// Appends `e` to `out` character by character.
fn push_all(out: &mut String, e: &str)
    ensures
        final(out)@ == old(out)@ + e@,
{
    out.append(e);
}

/// Escapes HTML tags and special characters: `&`, `<`, `>`, `"` and `'`
/// become entities, every other character is kept.
pub fn hbs_input_sanitize(string: String) -> (r: String)
    ensures
        r@ == html_escape(string@),
{
    let chars = chars_of(string.as_str());
    let mut out = String::new();
    let mut i: usize = 0;
    while i < chars.len()
        invariant
            chars@ == string@,
            i <= chars.len(),
            out@ == html_escape(string@.take(i as int)),
        decreases chars.len() - i,
    {
        let c = chars[i];
        proof {
            reveal_strlit("&amp;");
            reveal_strlit("&lt;");
            reveal_strlit("&gt;");
            reveal_strlit("&quot;");
            reveal_strlit("&#x27;");
            assert(string@.take(i + 1).drop_last() =~= string@.take(i as int));
        }
        if c == '&' {
            push_all(&mut out, "&amp;");
        } else if c == '<' {
            push_all(&mut out, "&lt;");
        } else if c == '>' {
            push_all(&mut out, "&gt;");
        } else if c == '"' {
            push_all(&mut out, "&quot;");
        } else if c == '\'' {
            push_all(&mut out, "&#x27;");
        } else {
            push_char(&mut out, c);
        }
        i = i + 1;
    }
    assert(string@.take(chars.len() as int) =~= string@);
    out
}

/// Removes the non-word characters: keeps the alphanumeric characters and
/// `_`, in order.
pub fn hbs_strict_sanitize(string: String) -> (r: String)
    ensures
        r@ == word_chars(string@),
{
    let chars = chars_of(string.as_str());
    let mut out = String::new();
    let mut i: usize = 0;
    while i < chars.len()
        invariant
            chars@ == string@,
            i <= chars.len(),
            out@ == string@.take(i as int).filter(|c: char| word_char(c)),
        decreases chars.len() - i,
    {
        let c = chars[i];
        proof {
            assert(string@.take(i + 1).drop_last() =~= string@.take(i as int));
            reveal(Seq::filter);
        }
        if is_alphanumeric(c) || c == '_' {
            push_char(&mut out, c);
        }
        i = i + 1;
    }
    assert(string@.take(chars.len() as int) =~= string@);
    out
}

/// Keeps spaces, commas, hyphens and underscores and removes every other
/// non-word character.
pub fn hbs_medium_sanitize(string: String) -> (r: String)
    ensures
        r@ == medium_chars(string@),
{
    let chars = chars_of(string.as_str());
    let mut out = String::new();
    let mut i: usize = 0;
    while i < chars.len()
        invariant
            chars@ == string@,
            i <= chars.len(),
            out@ == string@.take(i as int).filter(|c: char| medium_char(c)),
        decreases chars.len() - i,
    {
        let c = chars[i];
        proof {
            assert(string@.take(i + 1).drop_last() =~= string@.take(i as int));
            reveal(Seq::filter);
        }
        if is_alphanumeric(c) || c == '_' || c == ' ' || c == ',' || c == '-' {
            push_char(&mut out, c);
        }
        i = i + 1;
    }
    assert(string@.take(chars.len() as int) =~= string@);
    out
}

/// The page a failed login is sent back to: the login page, with the user
/// and the failure message as query when there is a message.
pub open spec fn login_failure_url(login_url: Seq<char>, failuser: Seq<char>, failmsg: Seq<char>) -> Seq<
    char,
> {
    if failmsg != Seq::<char>::empty() && failmsg != seq![' '] {
        login_url + "?user="@ + failuser + "&msg="@ + failmsg
    } else {
        login_url
    }
}

/// Where a failed login at `login_url` by `failuser` with the message
/// `failmsg` is redirected.
pub fn login_fail_url(login_url: &str, failuser: &str, failmsg: &str) -> (r: String)
    ensures
        r@ == login_failure_url(login_url@, failuser@, failmsg@),
{
    let mut failurl = String::from_str(login_url);
    let nonblank = if failmsg.unicode_len() == 0 {
        false
    } else if failmsg.unicode_len() == 1 && failmsg.get_char(0) == ' ' {
        false
    } else {
        true
    };
    proof {
        if failmsg@ == seq![' '] {
            assert(failmsg@.len() == 1 && failmsg@[0] == ' ');
        }
        if failmsg@.len() == 1 && failmsg@[0] == ' ' {
            assert(failmsg@ =~= seq![' ']);
        }
        if failmsg@.len() == 0 {
            assert(failmsg@ =~= Seq::<char>::empty());
        }
        assert(nonblank == (failmsg@ != Seq::<char>::empty() && failmsg@ != seq![' ']));
    }
    if nonblank {
        failurl.append("?user=");
        failurl.append(failuser);
        failurl.append("&msg=");
        failurl.append(failmsg);
        assert(failurl@ =~= login_url@ + "?user="@ + failuser@ + "&msg="@ + failmsg@);
    }
    failurl
}

/// The page a logged-out visitor is sent to.
pub const LOGOUT_REDIRECT: &'static str = "/";

/// The message flashed after logging out.
pub const LOGOUT_MESSAGE: &'static str = "Successfully logged out.";

/// The page a visitor who was not logged in is sent to by a logout.
pub const NOT_LOGGED_IN_REDIRECT: &'static str = "/admin";

/// What a logout does.
#[derive(Debug, Clone, Copy, PartialEq, Eq, Structural)]
pub enum Logout {
    /// Remove the administrator's and the user's cookie where there is one,
    /// then redirect to `LOGOUT_REDIRECT` flashing `LOGOUT_MESSAGE`.
    LoggedOut { remove_admin: bool, remove_user: bool },
    /// Nobody was logged in: redirect to `NOT_LOGGED_IN_REDIRECT`.
    NotLoggedIn,
}

/// What logging out does for a visitor with an administrator cookie
/// (`admin`) and a user cookie (`user`).
pub fn hbs_logout(admin: bool, user: bool) -> (r: Logout)
    ensures
        r == (if admin || user {
            Logout::LoggedOut { remove_admin: admin, remove_user: user }
        } else {
            Logout::NotLoggedIn
        }),
{
    if admin || user {
        Logout::LoggedOut { remove_admin: admin, remove_user: user }
    } else {
        Logout::NotLoggedIn
    }
}

/// The notice of the article listing when there are no articles; an
/// administrator is offered to create one.
pub fn hbs_all_articles_notice(admin: bool) -> (r: String)
    ensures
        r@ == (if admin {
            "There are no articles<br>\n<a href =\"/insert\">Create Article</a>"@
        } else {
            "There are no articles."@
        }),
{
    if admin {
        String::from_str("There are no articles<br>\n<a href =\"/insert\">Create Article</a>")
    } else {
        String::from_str("There are no articles.")
    }
}

/// The notice of the front page when there are no articles; an
/// administrator is offered to create one.
pub fn hbs_index_notice(admin: bool) -> (r: String)
    ensures
        r@ == (if admin {
            "There are no articles.<br>\n<a href =\"/insert\">Create Article</a>"@
        } else {
            "There are no articles."@
        }),
{
    if admin {
        String::from_str("There are no articles.<br>\n<a href =\"/insert\">Create Article</a>")
    } else {
        String::from_str("There are no articles.")
    }
}

/// The body of a listing page: the articles found, or a notice.
#[derive(Debug)]
pub enum ListingBody<T> {
    Articles(Vec<T>),
    General(String),
}

/// A listing page: its title (the site's default when `None`) and body.
#[derive(Debug)]
pub struct ListingPage<T> {
    pub title: Option<String>,
    pub body: ListingBody<T>,
}

/// Whether `body` is the notice `notice`.
pub open spec fn shows_notice<T>(body: ListingBody<T>, notice: Seq<char>) -> bool {
    body matches ListingBody::General(m) && m@ == notice
}

/// Whether `body` lists the articles `articles`.
pub open spec fn lists<T>(body: ListingBody<T>, articles: Seq<T>) -> bool {
    body matches ListingBody::Articles(v) && v@ == articles
}

/// The page of all articles for the articles found (`results`): the
/// listing when there are any, else the notice, which offers an
/// administrator to create one; titled `Viewing All Articles` either way.
pub fn hbs_all_articles<T>(results: Vec<T>, admin: bool) -> (r: ListingPage<T>)
    ensures
        r.title matches Some(t) && t@ == "Viewing All Articles"@,
        results@.len() != 0 ==> lists(r.body, results@),
        results@.len() == 0 ==> shows_notice(
            r.body,
            if admin {
                "There are no articles<br>\n<a href =\"/insert\">Create Article</a>"@
            } else {
                "There are no articles."@
            },
        ),
{
    let title = Some(String::from_str("Viewing All Articles"));
    if results.len() != 0 {
        ListingPage { title, body: ListingBody::Articles(results) }
    } else {
        ListingPage { title, body: ListingBody::General(hbs_all_articles_notice(admin)) }
    }
}

/// The front page for the articles found (`results`): the listing, under
/// an empty title, when there are any, else the notice under the site's
/// title, which offers an administrator to create an article.
pub fn hbs_index<T>(results: Vec<T>, admin: bool) -> (r: ListingPage<T>)
    ensures
        results@.len() != 0 ==> (r.title matches Some(t) && t@ == Seq::<char>::empty()) && lists(
            r.body,
            results@,
        ),
        results@.len() == 0 ==> r.title is None && shows_notice(
            r.body,
            if admin {
                "There are no articles.<br>\n<a href =\"/insert\">Create Article</a>"@
            } else {
                "There are no articles."@
            },
        ),
{
    if results.len() != 0 {
        ListingPage { title: Some(String::new()), body: ListingBody::Articles(results) }
    } else {
        ListingPage { title: None, body: ListingBody::General(hbs_index_notice(admin)) }
    }
}

/// The page of articles with a tag, for the articles found (`results`):
/// the listing titled `Viewing Articles with Tags: ` and the tag when there
/// are any, else an alert that none was found.
pub fn hbs_articles_tag<T>(tag: &str, results: Vec<T>) -> (r: ListingPage<T>)
    ensures
        results@.len() != 0 ==> (r.title matches Some(t) && t@ == "Viewing Articles with Tags: "@
            + tag@) && lists(r.body, results@),
        results@.len() == 0 ==> r.title is None && shows_notice(
            r.body,
            "Could not find any articles with the specified tag."@,
        ),
{
    if results.len() != 0 {
        let mut title = String::from_str("Viewing Articles with Tags: ");
        title.append(tag);
        ListingPage { title: Some(title), body: ListingBody::Articles(results) }
    } else {
        ListingPage {
            title: None,
            body: ListingBody::General(
                String::from_str("Could not find any articles with the specified tag."),
            ),
        }
    }
}

/// What the page of one article shows: the article, or a notice.
#[derive(Debug)]
pub enum ArticleBody {
    Article(Article),
    General(String),
}

/// The page of one article: its title and body.
#[derive(Debug)]
pub struct ArticlePage {
    pub title: String,
    pub body: ArticleBody,
}

/// The page of the article with id `aid`, for the article found: the
/// article under its own title, or the notice that it was not found,
/// titled `Article Not Found`.
pub fn hbs_article_view(aid: u32, found: Option<Article>) -> (r: ArticlePage)
    ensures
        match found {
            Some(a) => r.title@ == a.title@ && r.body == ArticleBody::Article(a),
            None => r.title@ == "Article Not Found"@ && (r.body matches ArticleBody::General(m) && m@
                == "Article "@ + decimal(aid as nat) + " not found."@),
        },
{
    match found {
        Some(article) => {
            let title = article.title.clone();
            ArticlePage { title, body: ArticleBody::Article(article) }
        },
        None => ArticlePage {
            title: String::from_str("Article Not Found"),
            body: ArticleBody::General(article_not_found(aid)),
        },
    }
}

/// What the article creation page shows.
#[derive(Debug, Clone, Copy, PartialEq, Eq, Structural)]
pub enum CreatePage {
    /// The creation form, titled `Create New Article`.
    Form,
    /// The notice that posting is not authorized, titled `Not Authorized`.
    NotAuthorized,
}

/// The article creation page for a visitor with a user cookie (`user`): the
/// form where there is one, the notice that posting is not authorized
/// otherwise.
pub fn hbs_create_form(user: bool) -> (r: CreatePage)
    ensures
        r == (if user {
            CreatePage::Form
        } else {
            CreatePage::NotAuthorized
        }),
{
    if user {
        CreatePage::Form
    } else {
        CreatePage::NotAuthorized
    }
}

/// The notice for an article id that has no article.
pub fn article_not_found(aid: u32) -> (r: String)
    ensures
        r@ == "Article "@ + decimal(aid as nat) + " not found."@,
{
    let mut msg = String::from_str("Article ");
    push_decimal(&mut msg, aid as u64);
    msg.append(" not found.");
    msg
}

} // verus!
