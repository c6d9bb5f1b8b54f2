use vstd::prelude::*;

use crate::errors::AuthError;

verus! {

/// The value of the first entry of `s` whose key is `key`, if any.
pub open spec fn spec_lookup(s: Seq<(Seq<char>, Seq<char>)>, key: Seq<char>) -> Option<Seq<char>>
    decreases s.len(),
{
    if s.len() == 0 {
        None
    } else if s.first().0 == key {
        Some(s.first().1)
    } else {
        spec_lookup(s.drop_first(), key)
    }
}

/// A mapping from string keys to string values: the deserialized body of the
/// authentication endpoint's response. It exists only for the duration of one
/// authentication call and is consumed by `TokenExtractor`.
pub struct TokenResponse {
    entries: Vec<(String, String)>,
}

impl View for TokenResponse {
    type V = Map<Seq<char>, Seq<char>>;

    closed spec fn view(&self) -> Map<Seq<char>, Seq<char>> {
        Map::new(
            |k: Seq<char>| spec_lookup(self.entries.deep_view(), k) is Some,
            |k: Seq<char>| spec_lookup(self.entries.deep_view(), k)->0,
        )
    }
}

impl TokenResponse {
    /// An empty response mapping.
    pub fn new() -> (r: TokenResponse)
        ensures
            r@ == Map::<Seq<char>, Seq<char>>::empty(),
    {
        let r = TokenResponse { entries: Vec::new() };
        proof {
            assert(r.entries.deep_view() =~= Seq::<(Seq<char>, Seq<char>)>::empty());
            assert(r@ =~= Map::<Seq<char>, Seq<char>>::empty());
        }
        r
    }

    /// Adds one field of the response; an entry added later shadows an earlier
    /// entry under the same key, as re-insertion into a map would.
    pub fn insert(&mut self, key: String, value: String)
        ensures
            final(self)@ == old(self)@.insert(key@, value@),
    {
        let ghost old_dv = self.entries.deep_view();
        self.entries.insert(0, (key, value));
        proof {
            let dv = self.entries.deep_view();
            assert(dv.drop_first() =~= old_dv);
            assert(dv.first() == (key@, value@));
            assert forall|k: Seq<char>| true implies #[trigger] spec_lookup(dv, k) == (if k
                == key@ {
                Some(value@)
            } else {
                spec_lookup(old_dv, k)
            }) by {
                assert(spec_lookup(dv, k) == if dv.first().0 == k {
                    Some(dv.first().1)
                } else {
                    spec_lookup(dv.drop_first(), k)
                });
            }
            assert(self@ =~= old(self)@.insert(key@, value@));
        }
    }
}

/// Pulls a named field out of a key-to-string response mapping, failing with a
/// distinct, identifiable error when the field is absent.
pub struct TokenExtractor;

impl TokenExtractor {
    /// Looks `key` up in `response`. Returns the associated value unchanged
    /// when the key is present, and `AuthError::MissingToken` naming the key
    /// when it is absent. The value is not trimmed, transformed or validated.
    pub fn extract(response: &TokenResponse, key: &String) -> (r: Result<String, AuthError>)
        ensures
            response@.contains_key(key@) ==> (r matches Ok(t) && t@ == response@[key@]),
            !response@.contains_key(key@) ==> (r matches Err(e) && e matches AuthError::MissingToken(
                k,
            ) && k@ == key@),
    {
        let ghost dv = response.entries.deep_view();
        proof {
            assert(dv.skip(0) =~= dv);
        }
        let n: usize = response.entries.len();
        let mut i: usize = 0;
        while i < n
            invariant
                n == response.entries.len(),
                i <= n,
                dv == response.entries.deep_view(),
                spec_lookup(dv, key@) == spec_lookup(dv.skip(i as int), key@),
            decreases n - i,
        {
            let e = &response.entries[i];
            if e.0 == *key {
                proof {
                    let tail = dv.skip(i as int);
                    assert(tail.first() == dv[i as int]);
                    assert(spec_lookup(dv, key@) == Some(dv[i as int].1));
                }
                return Ok(e.1.clone());
            }
            proof {
                let tail = dv.skip(i as int);
                assert(tail.first() == dv[i as int]);
                assert(tail.drop_first() =~= dv.skip(i as int + 1));
            }
            i += 1;
        }
        proof {
            assert(dv.skip(n as int) =~= Seq::<(Seq<char>, Seq<char>)>::empty());
            assert(spec_lookup(dv, key@) is None);
        }
        Err(AuthError::MissingToken(key.clone()))
    }
}

/// Looks the bearer token up in `response` under the fixed field name
/// `access_token`, the token field of the platform's authentication response.
pub fn extract_auth_token(response: &TokenResponse) -> (r: Result<String, AuthError>)
    ensures
        response@.contains_key("access_token"@) ==> (r matches Ok(t) && t@
            == response@["access_token"@]),
        !response@.contains_key("access_token"@) ==> (r matches Err(e) && e matches AuthError::MissingToken(
            k,
        ) && k@ == "access_token"@),
{
    let key: String = "access_token".to_owned();
    TokenExtractor::extract(response, &key)
}

} // verus!
