//! Connection authentication: protocol adapters check a caller's token
//! before ever emitting a publish or subscribe event.

use vstd::prelude::*;
use vstd::string::StringExecFns;

verus! {

/// The decoded key/value pairs of a URL query string, as
/// `url::form_urlencoded::parse` yields them for a given text.
pub uninterp spec fn query_pairs_of(s: Seq<char>) -> Seq<(Seq<char>, Seq<char>)>;

/// The pairs a vector of decoded strings stands for.
pub open spec fn pairs_view(ps: Seq<(String, String)>) -> Seq<(Seq<char>, Seq<char>)> {
    ps.map_values(|p: (String, String)| (p.0@, p.1@))
}

/// Relies on `url::form_urlencoded::parse`: the decoded pairs depend on the
/// query text alone, named by `query_pairs_of`.
#[verifier::external_body]
fn parse_query_pairs(q: &str) -> (r: Vec<(String, String)>)
    ensures
        pairs_view(r@) == query_pairs_of(q@),
{
    url::form_urlencoded::parse(q.as_bytes()).into_owned().collect()
}

/// The value of the last pair keyed `key`: what a map collected from the
/// pairs holds, later pairs overwriting earlier ones.
pub open spec fn last_value_for(
    pairs: Seq<(Seq<char>, Seq<char>)>,
    key: Seq<char>,
) -> Option<Seq<char>>
    decreases pairs.len(),
{
    if pairs.len() == 0 {
        None
    } else if pairs.last().0 == key {
        Some(pairs.last().1)
    } else {
        last_value_for(pairs.drop_last(), key)
    }
}

/// Why a connection is refused.
#[derive(Clone, Copy, Debug, PartialEq, Eq, Structural)]
pub enum AuthError {
    /// A token was given and does not match the configured one.
    TokenIsNotCorrect,
    /// No token was given though one is required.
    NoTokenFound,
}

/// The view of an optional borrowed text.
pub open spec fn opt_text_view(o: Option<&str>) -> Option<Seq<char>> {
    match o {
        Some(s) => Some(s@),
        None => None,
    }
}

/// What the simple token check owes: with no token configured every caller
/// passes; otherwise a missing or empty query is refused for want of a
/// token, a query whose last `token` value matches the configured one
/// passes, a differing value is refused as incorrect, and a query without a
/// `token` key is refused for want of one.
pub open spec fn spec_simple_auth(
    token: Option<Seq<char>>,
    query: Option<Seq<char>>,
) -> Result<(), AuthError> {
    match token {
        None => Ok(()),
        Some(tok) => match query {
            None => Err(AuthError::NoTokenFound),
            Some(q) => if q.len() == 0 {
                Err(AuthError::NoTokenFound)
            } else {
                match last_value_for(query_pairs_of(q), "token"@) {
                    Some(t) => if t == tok {
                        Ok(())
                    } else {
                        Err(AuthError::TokenIsNotCorrect)
                    },
                    None => Err(AuthError::NoTokenFound),
                }
            },
        },
    }
}

/// The value of the last `token` pair, if any.
fn token_value(pairs: &Vec<(String, String)>) -> (r: Option<String>)
    ensures
        match last_value_for(pairs_view(pairs@), "token"@) {
            Some(t) => r matches Some(s) && s@ == t,
            None => r is None,
        },
{
    let needle = String::from_str("token");
    let mut k = pairs.len();
    proof {
        assert(pairs_view(pairs@).subrange(0, k as int) =~= pairs_view(pairs@));
    }
    while k > 0
        invariant
            k <= pairs.len(),
            needle@ == "token"@,
            last_value_for(pairs_view(pairs@), "token"@) == last_value_for(
                pairs_view(pairs@).subrange(0, k as int),
                "token"@,
            ),
        decreases k,
    {
        let ghost whole = pairs_view(pairs@);
        proof {
            assert(whole.subrange(0, k as int).last() == whole[k - 1]);
            assert(whole.subrange(0, k as int).drop_last() =~= whole.subrange(0, k - 1));
        }
        if pairs[k - 1].0 == needle {
            return Some(pairs[k - 1].1.clone());
        }
        k = k - 1;
    }
    proof {
        assert(pairs_view(pairs@).subrange(0, 0) =~= Seq::<(Seq<char>, Seq<char>)>::empty());
    }
    None
}

/// The capability a protocol adapter consults before it lets a session
/// publish or pull a stream.
pub trait Auth {
    /// Checks a publish attempt.
    fn auth(&self, app: Option<&str>, stream: Option<&str>, query: Option<&str>) -> Result<
        (),
        AuthError,
    >;

    /// Checks a pull/playback attempt; by default every caller passes.
    fn auth_pull(&self, app: Option<&str>, stream: Option<&str>, query: Option<&str>) -> (r:
        Result<(), AuthError>)
        default_ensures
            r is Ok,
    {
        Ok(())
    }
}

/// Checks callers against one configured token carried in the query string.
#[derive(Debug)]
pub struct SimpleTokenAuthenticator {
    token: Option<String>,
}

impl SimpleTokenAuthenticator {
    /// The configured token.
    pub closed spec fn spec_token(&self) -> Option<Seq<char>> {
        match self.token {
            Some(t) => Some(t@),
            None => None,
        }
    }

    /// An authenticator demanding `token` of every caller.
    pub fn new(token: String) -> (r: Self)
        ensures
            r.spec_token() == Some(token@),
    {
        Self { token: Some(token) }
    }

    /// An authenticator that lets every caller pass.
    pub fn new_nonauth() -> (r: Self)
        ensures
            r.spec_token() is None,
    {
        Self { token: None }
    }

    /// The token check itself, shared by the publish and pull sides.
    pub fn check(&self, query: Option<&str>) -> (r: Result<(), AuthError>)
        ensures
            r == spec_simple_auth(self.spec_token(), opt_text_view(query)),
    {
        match &self.token {
            None => Ok(()),
            Some(tok) => match query {
                None => Err(AuthError::NoTokenFound),
                Some(q) => {
                    if q.is_empty() {
                        return Err(AuthError::NoTokenFound);
                    }
                    let pairs = parse_query_pairs(q);
                    match token_value(&pairs) {
                        Some(t) => if t == *tok {
                            Ok(())
                        } else {
                            Err(AuthError::TokenIsNotCorrect)
                        },
                        None => Err(AuthError::NoTokenFound),
                    }
                },
            },
        }
    }
}

impl Clone for SimpleTokenAuthenticator {
    fn clone(&self) -> (r: Self)
        ensures
            r.spec_token() == self.spec_token(),
    {
        match &self.token {
            Some(t) => SimpleTokenAuthenticator { token: Some(t.clone()) },
            None => SimpleTokenAuthenticator { token: None },
        }
    }
}

impl Auth for SimpleTokenAuthenticator {
    /// The app and stream names play no part in the simple check; only the
    /// query's token does.
    fn auth(&self, app: Option<&str>, stream: Option<&str>, query: Option<&str>) -> (r: Result<
        (),
        AuthError,
    >)
        ensures
            r == spec_simple_auth(self.spec_token(), opt_text_view(query)),
    {
        self.check(query)
    }
}

impl Auth for () {
    /// The trivial authenticator: every caller passes.
    fn auth(&self, app: Option<&str>, stream: Option<&str>, query: Option<&str>) -> (r: Result<
        (),
        AuthError,
    >)
        ensures
            r is Ok,
    {
        Ok(())
    }
}

} // verus!
