//! Verb dispatch: mapping a CLI option flag (plus the optional URL) to the
//! call expression run against the bound plugin instance.

use vstd::prelude::*;
use vstd::string::StringExecFns;

verus! {

/// The six plugin entry points selectable from the command line.
#[derive(Clone, Copy, Debug, PartialEq, Eq, Structural)]
pub enum Verb {
    Discover,
    Search,
    Info,
    Media,
    Servers,
    Sources,
}

/// The CLI flag that selects a verb.
pub open spec fn flag_text(v: Verb) -> Seq<char> {
    match v {
        Verb::Discover => "--discover"@,
        Verb::Search => "--search"@,
        Verb::Info => "--info"@,
        Verb::Media => "--media"@,
        Verb::Servers => "--servers"@,
        Verb::Sources => "--sources"@,
    }
}

/// The plugin method a verb is dispatched to.
pub open spec fn method_text(v: Verb) -> Seq<char> {
    match v {
        Verb::Discover => "discover"@,
        Verb::Search => "search"@,
        Verb::Info => "info"@,
        Verb::Media => "media"@,
        Verb::Servers => "servers"@,
        Verb::Sources => "sources"@,
    }
}

/// Which verb, if any, an option flag selects.
pub open spec fn verb_of_flag(opt: Seq<char>) -> Option<Verb> {
    if opt == "--discover"@ {
        Some(Verb::Discover)
    } else if opt == "--search"@ {
        Some(Verb::Search)
    } else if opt == "--info"@ {
        Some(Verb::Info)
    } else if opt == "--media"@ {
        Some(Verb::Media)
    } else if opt == "--servers"@ {
        Some(Verb::Servers)
    } else if opt == "--sources"@ {
        Some(Verb::Sources)
    } else {
        None
    }
}

/// Every verb except discover takes a URL argument.
pub open spec fn requires_url(v: Verb) -> bool {
    v != Verb::Discover
}

/// The call expression for one invocation: `discover()`, or the method name
/// with the URL spliced in between single quotes.
pub open spec fn call_text(v: Verb, url: Option<Seq<char>>) -> Seq<char> {
    if v == Verb::Discover {
        "discover()"@
    } else {
        method_text(v) + "('"@ + url->Some_0 + "')"@
    }
}

/// Why a dispatch was refused.
#[derive(Clone, Copy, Debug, PartialEq, Eq, Structural)]
pub enum DispatchError {
    /// The selected verb takes a URL and none was given.
    UrlRequired(Verb),
    /// The option flag selects no verb.
    UnknownOption,
}

impl DispatchError {
    /// The message reported to the user.
    pub open spec fn message_text(self) -> Seq<char> {
        match self {
            DispatchError::UrlRequired(v) => "URL is required for "@ + flag_text(v) + " option."@,
            DispatchError::UnknownOption => "No option found."@,
        }
    }

    /// Renders the message.
    pub fn message(&self) -> (r: String)
        ensures
            r@ == self.message_text(),
    {
        match self {
            DispatchError::UrlRequired(v) => {
                let mut s = "URL is required for ".to_owned();
                s.append(flag_of(*v));
                s.append(" option.");
                s
            },
            DispatchError::UnknownOption => "No option found.".to_owned(),
        }
    }
}

/// The flag of a verb, as executable text.
pub fn flag_of(v: Verb) -> (r: &'static str)
    ensures
        r@ == flag_text(v),
{
    match v {
        Verb::Discover => "--discover",
        Verb::Search => "--search",
        Verb::Info => "--info",
        Verb::Media => "--media",
        Verb::Servers => "--servers",
        Verb::Sources => "--sources",
    }
}

/// The method name of a verb, as executable text.
pub fn method_of(v: Verb) -> (r: &'static str)
    ensures
        r@ == method_text(v),
{
    match v {
        Verb::Discover => "discover",
        Verb::Search => "search",
        Verb::Info => "info",
        Verb::Media => "media",
        Verb::Servers => "servers",
        Verb::Sources => "sources",
    }
}

/// Parses an option flag into a verb.
pub fn parse_flag(option: &str) -> (r: Option<Verb>)
    ensures
        r == verb_of_flag(option@),
{
    let o = option.to_owned();
    if o == "--discover".to_owned() {
        Some(Verb::Discover)
    } else if o == "--search".to_owned() {
        Some(Verb::Search)
    } else if o == "--info".to_owned() {
        Some(Verb::Info)
    } else if o == "--media".to_owned() {
        Some(Verb::Media)
    } else if o == "--servers".to_owned() {
        Some(Verb::Servers)
    } else if o == "--sources".to_owned() {
        Some(Verb::Sources)
    } else {
        None
    }
}

/// The view of an optional URL argument.
pub open spec fn url_view(url: Option<String>) -> Option<Seq<char>> {
    match url {
        Some(u) => Some(u@),
        None => None,
    }
}

/// What dispatching an option flag with an optional URL yields: the call
/// expression, or the error that refuses it.
pub open spec fn dispatch_text(opt: Seq<char>, url: Option<Seq<char>>) -> Result<
    Seq<char>,
    DispatchError,
> {
    match verb_of_flag(opt) {
        None => Err(DispatchError::UnknownOption),
        Some(v) => if requires_url(v) && url is None {
            Err(DispatchError::UrlRequired(v))
        } else {
            Ok(call_text(v, url))
        },
    }
}

/// Builds the call expression for an option flag, refusing an unknown flag
/// and a missing URL before any script interaction.
pub fn build_call(option: &str, url: &Option<String>) -> (r: Result<String, DispatchError>)
    ensures
        r matches Ok(s) ==> dispatch_text(option@, url_view(*url)) matches Ok(t) && s@ == t,
        r matches Err(e) ==> dispatch_text(option@, url_view(*url)) == Err::<Seq<char>, DispatchError>(e),
{
    match parse_flag(option) {
        None => Err(DispatchError::UnknownOption),
        Some(v) => {
            if v == Verb::Discover {
                Ok("discover()".to_owned())
            } else {
                match url {
                    Some(u) => {
                        let mut s = method_of(v).to_owned();
                        s.append("('");
                        s.append(u.as_str());
                        s.append("')");
                        Ok(s)
                    },
                    None => Err(DispatchError::UrlRequired(v)),
                }
            }
        },
    }
}

/// Each option flag selects its own verb.
pub proof fn lemma_flag_roundtrip(v: Verb)
    ensures
        verb_of_flag(flag_text(v)) == Some(v),
{
    reveal_strlit("--discover");
    reveal_strlit("--search");
    reveal_strlit("--info");
    reveal_strlit("--media");
    reveal_strlit("--servers");
    reveal_strlit("--sources");
    assert("--discover"@.len() == 10);
    assert("--search"@.len() == 8);
    assert("--info"@.len() == 6);
    assert("--media"@.len() == 7);
    assert("--servers"@.len() == 9);
    assert("--sources"@.len() == 9);
    assert("--servers"@[3] == 'e');
    assert("--sources"@[3] == 'o');
}

/// Omitting the URL argument refuses every verb but discover: the flag of
/// a URL-requiring verb dispatched without a URL yields the URL-required
/// error, while the discover flag dispatches to its call expression.
pub proof fn lemma_url_required(v: Verb)
    ensures
        requires_url(v) ==> dispatch_text(flag_text(v), None) == Err::<
            Seq<char>,
            DispatchError,
        >(DispatchError::UrlRequired(v)),
        !requires_url(v) ==> dispatch_text(flag_text(v), None) == Ok::<
            Seq<char>,
            DispatchError,
        >("discover()"@),
{
    lemma_flag_roundtrip(v);
}

/// In the call expression of a URL-requiring verb, the method name stands
/// first, the URL stands directly after it between a quoted opening
/// parenthesis and a quoted closing one, and nothing follows.
pub proof fn lemma_call_quotes_url(v: Verb, url: Seq<char>)
    requires
        requires_url(v),
    ensures
        ({
            let c = call_text(v, Some(url));
            let m = method_text(v);
            &&& c.len() == m.len() + url.len() + 4
            &&& c.subrange(0, m.len() as int) == m
            &&& c.subrange(m.len() as int, m.len() as int + 2) == "('"@
            &&& c.subrange(m.len() as int + 2, m.len() as int + 2 + url.len() as int) == url
            &&& c.subrange(m.len() as int + 2 + url.len() as int, c.len() as int) == "')"@
        }),
{
    reveal_strlit("('");
    reveal_strlit("')");
    let c = call_text(v, Some(url));
    let m = method_text(v);
    assert("('"@.len() == 2);
    assert("')"@.len() == 2);
    assert(c == m + "('"@ + url + "')"@);
    assert(c.subrange(0, m.len() as int) =~= m);
    assert(c.subrange(m.len() as int, m.len() as int + 2) =~= "('"@);
    assert(c.subrange(m.len() as int + 2, m.len() as int + 2 + url.len() as int) =~= url);
    assert(c.subrange(m.len() as int + 2 + url.len() as int, c.len() as int) =~= "')"@);
}

/// The URL stands in the call expression of a URL-requiring verb exactly
/// once: at its quoted position and nowhere else. This holds for every
/// non-empty URL that contains no parenthesis and no single quote and does
/// not occur inside the method name — a URL occurring elsewhere in the
/// expression (one that reads like part of the method name) defeats it.
pub proof fn lemma_call_url_once(v: Verb, url: Seq<char>)
    requires
        requires_url(v),
        url.len() > 0,
        forall|k: int| 0 <= k < url.len() ==> url[k] != '(' && url[k] != ')' && url[k] != '\'',
        forall|i: int|
            0 <= i <= method_text(v).len() - url.len() ==> #[trigger] method_text(v).subrange(
                i,
                i + url.len(),
            ) != url,
    ensures
        ({
            let c = call_text(v, Some(url));
            let p = method_text(v).len() as int + 2;
            &&& c.subrange(p, p + url.len() as int) == url
            &&& forall|j: int|
                0 <= j && j + url.len() <= c.len() && j != p ==> #[trigger] c.subrange(
                    j,
                    j + url.len() as int,
                ) != url
        }),
{
    reveal_strlit("('");
    reveal_strlit("')");
    let c = call_text(v, Some(url));
    let m = method_text(v);
    let n = url.len() as int;
    let p = m.len() as int + 2;
    assert("('"@.len() == 2);
    assert("')"@.len() == 2);
    assert("('"@[0] == '(');
    assert("('"@[1] == '\'');
    assert("')"@[0] == '\'');
    assert("')"@[1] == ')');
    assert(c == m + "('"@ + url + "')"@);
    assert(c.len() == m.len() + n + 4);
    assert(forall|i: int| 0 <= i < m.len() ==> c[i] == m[i]);
    assert(c[m.len() as int] == '(');
    assert(c[m.len() as int + 1] == '\'');
    assert(forall|i: int| 0 <= i < n ==> c[p + i] == url[i]);
    assert(c[p + n] == '\'');
    assert(c[p + n + 1] == ')');
    assert(c.subrange(p, p + n) =~= url);
    assert forall|j: int| 0 <= j && j + n <= c.len() && j != p implies #[trigger] c.subrange(
        j,
        j + n,
    ) != url by {
        let w = c.subrange(j, j + n);
        assert(w.len() == n);
        if j + n <= m.len() {
            assert(w =~= m.subrange(j, j + n));
        } else if j <= m.len() {
            assert(w[m.len() - j] == c[m.len() as int]);
            if w == url {
                assert(url[m.len() - j] == '(');
                assert(false);
            }
        } else if j == m.len() as int + 1 {
            assert(w[0] == c[j]);
            if w == url {
                assert(url[0] == '\'');
                assert(false);
            }
        } else if j <= p + n {
            assert(w[p + n - j] == c[p + n]);
            if w == url {
                assert(url[p + n - j] == '\'');
                assert(false);
            }
        } else {
            assert(j == p + n + 1 && n == 1);
            assert(w[0] == c[p + n + 1]);
            if w == url {
                assert(url[0] == ')');
                assert(false);
            }
        }
    };
}

} // verus!
