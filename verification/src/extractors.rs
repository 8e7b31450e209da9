//! The query parameters of an OAuth2 callback, and the CSRF `state` check.
use vstd::prelude::*;
use crate::error::{ErrorV, SocialiteError};
use crate::form::{pairs_view, query_text};
use crate::text::{cat3, opt_view, owned, str_eq};

verus! {

/// The standard OAuth2 callback query parameters.
///
/// Web frameworks can read a callback's query string into this struct; so
/// does [`AuthCallback::from_query`].
#[derive(Debug, PartialEq)]
pub struct AuthCallback {
    pub code: Option<String>,
    pub state: Option<String>,
    pub error: Option<String>,
    pub error_description: Option<String>,
}

/// The value of a callback.
pub struct CallbackV {
    pub code: Option<Seq<char>>,
    pub state: Option<Seq<char>>,
    pub error: Option<Seq<char>>,
    pub error_description: Option<Seq<char>>,
}

impl View for AuthCallback {
    type V = CallbackV;

    open spec fn view(&self) -> CallbackV {
        CallbackV {
            code: opt_view(self.code),
            state: opt_view(self.state),
            error: opt_view(self.error),
            error_description: opt_view(self.error_description),
        }
    }
}

/// The answer to a callback whose `state` is `state`, for a session that
/// stored `session_state`.
pub open spec fn state_check(state: Option<Seq<char>>, session_state: Seq<char>) -> Result<(), ErrorV> {
    match state {
        Some(s) => if s == session_state {
            Ok(())
        } else {
            Err(ErrorV::InvalidState("CSRF state mismatch"@))
        },
        None => Err(ErrorV::InvalidState("State missing in callback"@)),
    }
}

/// The pairs `url::form_urlencoded::parse` reads from a query string.
pub uninterp spec fn spec_query_pairs(query: Seq<char>) -> Seq<(Seq<char>, Seq<char>)>;

/// `url::form_urlencoded::parse`: the name-value pairs of an
/// `application/x-www-form-urlencoded` text, in order, with `+` and
/// percent-escapes decoded. They depend on the text alone. A text written by
/// `form_urlencoded`'s serializer ([`query_text`]) reads back as the pairs it
/// was written from: each pair is a `&`-separated part split at its one
/// unescaped `=`, and decoding undoes `byte_serialize`.
#[verifier::external_body]
fn query_pairs(query: &str) -> (r: Vec<(String, String)>)
    ensures
        pairs_view(r@) == spec_query_pairs(query@),
        forall|ps: Seq<(Seq<char>, Seq<char>)>| #[trigger] query_text(ps) == query@ ==> pairs_view(r@) == ps,
{
    url::form_urlencoded::parse(query.as_bytes()).map(|(k, v)| (k.into_owned(), v.into_owned())).collect()
}

/// The empty callback.
pub open spec fn no_fields() -> CallbackV {
    CallbackV { code: None, state: None, error: None, error_description: None }
}

/// The text of the error for a parameter given twice.
pub open spec fn duplicate_field(name: Seq<char>) -> Seq<char> {
    "duplicate field `"@ + name + "`"@
}

/// The callback the pairs make: each of `code`, `state`, `error` and
/// `error_description` may come at most once (else the error names the first
/// one repeated); other names are ignored.
pub open spec fn callback_fields(pairs: Seq<(Seq<char>, Seq<char>)>) -> Result<CallbackV, Seq<char>>
    decreases pairs.len(),
{
    if pairs.len() == 0 {
        Ok(no_fields())
    } else {
        match callback_fields(pairs.drop_last()) {
            Err(m) => Err(m),
            Ok(c) => {
                let (k, v) = pairs.last();
                if k == "code"@ {
                    if c.code is Some { Err(duplicate_field(k)) } else { Ok(CallbackV { code: Some(v), ..c }) }
                } else if k == "state"@ {
                    if c.state is Some { Err(duplicate_field(k)) } else { Ok(CallbackV { state: Some(v), ..c }) }
                } else if k == "error"@ {
                    if c.error is Some { Err(duplicate_field(k)) } else { Ok(CallbackV { error: Some(v), ..c }) }
                } else if k == "error_description"@ {
                    if c.error_description is Some {
                        Err(duplicate_field(k))
                    } else {
                        Ok(CallbackV { error_description: Some(v), ..c })
                    }
                } else {
                    Ok(c)
                }
            },
        }
    }
}

/// Sets `slot` to `value`, unless it is already set.
fn fill(slot: &mut Option<String>, name: &str, value: &str) -> (r: Result<(), String>)
    ensures
        match *old(slot) {
            Some(_) => r matches Err(m) && m@ == duplicate_field(name@) && *final(slot) == *old(slot),
            None => r is Ok && opt_view(*final(slot)) == Some(value@),
        },
{
    match slot {
        Some(_) => Err(cat3("duplicate field `", name, "`")),
        None => {
            *slot = Some(owned(value));
            Ok(())
        },
    }
}

impl AuthCallback {
    /// Verifies the CSRF `state` parameter against the one kept in the session.
    pub fn verify_state(&self, session_state: &str) -> (r: Result<(), SocialiteError>)
        ensures
            match state_check(self@.state, session_state@) {
                Ok(()) => r is Ok,
                Err(e) => r matches Err(x) && x@ == e,
            },
    {
        match &self.state {
            Some(state) => {
                if str_eq(state.as_str(), session_state) {
                    Ok(())
                } else {
                    Err(SocialiteError::InvalidState(owned("CSRF state mismatch")))
                }
            },
            None => Err(SocialiteError::InvalidState(owned("State missing in callback"))),
        }
    }

    /// The callback in a query string such as `code=...&state=...`, or the
    /// text of the error for a parameter given twice.
    pub fn from_query(query: &str) -> (r: Result<AuthCallback, String>)
        ensures
            match callback_fields(spec_query_pairs(query@)) {
                Ok(c) => r matches Ok(x) && x@ == c,
                Err(m) => r matches Err(x) && x@ == m,
            },
            forall|ps: Seq<(Seq<char>, Seq<char>)>| #[trigger] query_text(ps) == query@ ==> spec_query_pairs(query@) == ps,
    {
        let pairs = query_pairs(query);
        let ghost pv = pairs_view(pairs@);
        let mut c = AuthCallback { code: None, state: None, error: None, error_description: None };
        let mut i: usize = 0;
        while i < pairs.len()
            invariant
                i <= pairs@.len(),
                pv == pairs_view(pairs@),
                pv == spec_query_pairs(query@),
                forall|ps: Seq<(Seq<char>, Seq<char>)>| #[trigger] query_text(ps) == query@ ==> pv == ps,
                callback_fields(pv.take(i as int)) == Ok::<CallbackV, Seq<char>>(c@),
            decreases pairs@.len() - i,
        {
            let (k, v) = (&pairs[i].0, &pairs[i].1);
            proof {
                assert(pv.take(i + 1).drop_last() =~= pv.take(i as int));
                assert(pv.take(i + 1).last() == (k@, v@));
            }
            let ghost before = c@;
            let r = if str_eq(k.as_str(), "code") {
                fill(&mut c.code, "code", v.as_str())
            } else if str_eq(k.as_str(), "state") {
                fill(&mut c.state, "state", v.as_str())
            } else if str_eq(k.as_str(), "error") {
                fill(&mut c.error, "error", v.as_str())
            } else if str_eq(k.as_str(), "error_description") {
                fill(&mut c.error_description, "error_description", v.as_str())
            } else {
                Ok(())
            };
            assert(r is Ok ==> callback_fields(pv.take(i + 1)) == Ok::<CallbackV, Seq<char>>(c@));
            match r {
                Err(m) => {
                    proof {
                        assert(callback_fields(pv.take(i + 1)) == Err::<CallbackV, Seq<char>>(m@));
                        lemma_error_stays(pv, i as int + 1);
                    }
                    return Err(m);
                },
                Ok(()) => {},
            }
            i = i + 1;
        }
        assert(pv.take(pairs@.len() as int) =~= pv);
        Ok(c)
    }
}

/// Once the pairs give an error, more pairs give the same error.
proof fn lemma_error_stays(pairs: Seq<(Seq<char>, Seq<char>)>, n: int)
    requires
        0 <= n <= pairs.len(),
        callback_fields(pairs.take(n)) is Err,
    ensures
        callback_fields(pairs) == callback_fields(pairs.take(n)),
    decreases pairs.len() - n,
{
    if n < pairs.len() {
        assert(pairs.take(n + 1).drop_last() =~= pairs.take(n));
        lemma_error_stays(pairs, n + 1);
    } else {
        assert(pairs.take(n) =~= pairs);
    }
}

/// A callback passes the CSRF check exactly when it carries the state kept in
/// the session; any other state, or none, is refused as an invalid state.
pub proof fn lemma_state_check(state: Option<Seq<char>>, session_state: Seq<char>)
    ensures
        state_check(state, session_state) is Ok <==> state == Some(session_state),
        state_check(state, session_state) is Err ==> state_check(state, session_state)->Err_0 is InvalidState,
{
}

/// A callback with a code and a state reads as that code and state; a parameter the callback does
/// not know is skipped; a known parameter given a second time is refused, naming it.
pub proof fn lemma_callback_fields(
    ps: Seq<(Seq<char>, Seq<char>)>,
    c: Seq<char>,
    st: Seq<char>,
    k: Seq<char>,
    v: Seq<char>,
)
    ensures
        callback_fields(seq![("code"@, c), ("state"@, st)]) == Ok::<CallbackV, Seq<char>>(
            (CallbackV { code: Some(c), state: Some(st), error: None, error_description: None }),
        ),
        callback_fields(seq![("state"@, st), ("code"@, c)]) == Ok::<CallbackV, Seq<char>>(
            (CallbackV { code: Some(c), state: Some(st), error: None, error_description: None }),
        ),
        k != "code"@ && k != "state"@ && k != "error"@ && k != "error_description"@ ==> callback_fields(ps.push((k, v)))
            == callback_fields(ps),
        callback_fields(seq![("code"@, c), ("code"@, v)]) == Err::<CallbackV, Seq<char>>(duplicate_field("code"@)),
        callback_fields(seq![("state"@, st), ("state"@, v)]) == Err::<CallbackV, Seq<char>>(duplicate_field("state"@)),
{
    reveal_strlit("code");
    reveal_strlit("state");
    reveal_with_fuel(callback_fields, 3);
    assert("code"@ != "state"@) by {
        assert("code"@.len() != "state"@.len());
    }
    let a = seq![("code"@, c), ("state"@, st)];
    assert(a.drop_last() =~= seq![("code"@, c)]);
    assert(a.drop_last().drop_last() =~= Seq::<(Seq<char>, Seq<char>)>::empty());
    let b = seq![("state"@, st), ("code"@, c)];
    assert(b.drop_last() =~= seq![("state"@, st)]);
    assert(b.drop_last().drop_last() =~= Seq::<(Seq<char>, Seq<char>)>::empty());
    assert(ps.push((k, v)).drop_last() =~= ps);
    let d = seq![("code"@, c), ("code"@, v)];
    assert(d.drop_last() =~= seq![("code"@, c)]);
    assert(d.drop_last().drop_last() =~= Seq::<(Seq<char>, Seq<char>)>::empty());
    let e = seq![("state"@, st), ("state"@, v)];
    assert(e.drop_last() =~= seq![("state"@, st)]);
    assert(e.drop_last().drop_last() =~= Seq::<(Seq<char>, Seq<char>)>::empty());
}

} // verus!
