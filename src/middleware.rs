use vstd::prelude::*;
use crate::auth::{access_api_result, access_jwt_result, decode_access_jwt, decoded_access, AccessClaims, AccessClaimsView};
use crate::configuration::Jwt;
use crate::error::ApiError;

verus! {

/// HTTP request methods.
#[derive(Debug, Clone, Copy, PartialEq, Eq, Structural)]
pub enum Method {
    Get,
    Post,
    Put,
    Patch,
    Delete,
    Head,
    Options,
    Connect,
    Trace,
    Other,
}

/// One row of an exemption table.
#[derive(Debug, Clone)]
pub struct ExemptPath {
    pub path: String,
    pub methods: Vec<Method>,
}

/// Paths, each with the methods that reach it without authentication.
/// Built once at start-up and only read afterwards.
pub struct ExemptionTable {
    entries: Vec<ExemptPath>,
    table: Ghost<Map<Seq<char>, Seq<Method>>>,
}

/// The header prefix in front of a bearer token.
pub const BEARER_PREFIX: &'static str = "Bearer ";

/// Whether a request for `path` with `method` skips authentication: always
/// when authentication is switched off, always for pre-flight (`OPTIONS`)
/// requests, and where the table lists the method for the path.
pub open spec fn exempt(table: Map<Seq<char>, Seq<Method>>, path: Seq<char>, method: Method, active: bool) -> bool {
    ||| !active
    ||| method == Method::Options
    ||| table.contains_key(path) && table[path].contains(method)
}

/// The rest of `s` after `prefix`, where `s` starts with it.
pub open spec fn without_prefix(s: Seq<char>, prefix: Seq<char>) -> Option<Seq<char>> {
    if prefix.len() <= s.len() && s.subrange(0, prefix.len() as int) == prefix {
        Some(s.subrange(prefix.len() as int, s.len() as int))
    } else {
        None
    }
}

/// The token carried by an `Authorization` header value, if it is a bearer token.
pub open spec fn bearer_token(header: Option<Seq<char>>) -> Option<Seq<char>> {
    match header {
        Some(h) => without_prefix(h, BEARER_PREFIX@),
        None => None,
    }
}

pub open spec fn str_view(o: Option<&str>) -> Option<Seq<char>> {
    match o {
        Some(s) => Some(s@),
        None => None,
    }
}

/// Relies on `str::strip_prefix`: the rest of `s` after `prefix`, where `s`
/// starts with it.
#[verifier::external_body]
fn strip_prefix<'a>(s: &'a str, prefix: &str) -> (r: Option<&'a str>)
    ensures
        str_view(r) == without_prefix(s@, prefix@),
{
    s.strip_prefix(prefix)
}

fn contains_method(methods: &Vec<Method>, method: Method) -> (r: bool)
    ensures
        r == methods@.contains(method),
{
    let mut i: usize = 0;
    while i < methods.len()
        invariant
            0 <= i <= methods@.len(),
            forall|k: int| 0 <= k < i ==> methods@[k] != method,
        decreases methods@.len() - i,
    {
        if methods[i] == method {
            return true;
        }
        i += 1;
    }
    false
}

fn copy_methods(methods: &Vec<Method>) -> (r: Vec<Method>)
    ensures
        r@ == methods@,
{
    let mut r: Vec<Method> = Vec::new();
    let mut i: usize = 0;
    while i < methods.len()
        invariant
            0 <= i <= methods@.len(),
            r@ == methods@.subrange(0, i as int),
        decreases methods@.len() - i,
    {
        r.push(methods[i]);
        i += 1;
    }
    assert(methods@.subrange(0, methods@.len() as int) =~= methods@);
    r
}

impl View for ExemptionTable {
    type V = Map<Seq<char>, Seq<Method>>;

    closed spec fn view(&self) -> Map<Seq<char>, Seq<Method>> {
        self.table@
    }
}

impl ExemptionTable {
    /// The table's rows agree with its view, one row per path.
    pub closed spec fn wf(&self) -> bool {
        &&& forall|i: int| 0 <= i < self.entries@.len() ==> #[trigger] self.table@.contains_key(
            self.entries@[i].path@,
        ) && self.table@[self.entries@[i].path@] == self.entries@[i].methods@
        &&& forall|p: Seq<char>| #[trigger] self.table@.contains_key(p) ==> exists|i: int|
            0 <= i < self.entries@.len() && self.entries@[i].path@ == p
        &&& forall|i: int, j: int|
            0 <= i < j < self.entries@.len() ==> self.entries@[i].path@ != self.entries@[j].path@
    }

    /// A table that exempts nothing but pre-flight requests.
    pub fn new() -> (r: Self)
        ensures
            r.wf(),
            r@ == Map::<Seq<char>, Seq<Method>>::empty(),
    {
        ExemptionTable { entries: Vec::new(), table: Ghost(Map::empty()) }
    }

    /// The row index of `path`, if any.
    fn position_of(&self, path: &String) -> (r: Option<usize>)
        requires
            self.wf(),
        ensures
            r matches Some(i) ==> i < self.entries@.len() && self.entries@[i as int].path@ == path@
                && self.table@.contains_key(path@) && self.table@[path@] == self.entries@[i as int].methods@,
            r is None ==> !self.table@.contains_key(path@),
    {
        let mut i: usize = 0;
        while i < self.entries.len()
            invariant
                self.wf(),
                0 <= i <= self.entries@.len(),
                forall|k: int| 0 <= k < i ==> self.entries@[k].path@ != path@,
            decreases self.entries@.len() - i,
        {
            if self.entries[i].path == *path {
                assert(self.table@.contains_key(self.entries@[i as int].path@));
                return Some(i);
            }
            i += 1;
        }
        None
    }

    /// Exempts `methods` on `path`, replacing what the table held for it.
    pub fn insert(&mut self, path: String, methods: Vec<Method>)
        requires
            old(self).wf(),
        ensures
            final(self).wf(),
            final(self)@ == old(self)@.insert(path@, methods@),
    {
        let ghost old_entries = self.entries@;
        let ghost new_table = self.table@.insert(path@, methods@);
        match self.position_of(&path) {
            Some(i) => {
                self.entries.set(i, ExemptPath { path, methods });
                self.table = Ghost(new_table);
                proof {
                    let e = self.entries@;
                    assert forall|k: int| 0 <= k < e.len() implies #[trigger] new_table.contains_key(
                        e[k].path@,
                    ) && new_table[e[k].path@] == e[k].methods@ by {
                        if k != i {
                            assert(old_entries[k] == e[k]);
                            assert(old(self).table@.contains_key(old_entries[k].path@));
                        }
                    }
                    assert forall|p: Seq<char>| #[trigger] new_table.contains_key(p) implies exists|k: int|
                        0 <= k < e.len() && e[k].path@ == p by {
                        if p != e[i as int].path@ {
                            assert(old(self).table@.contains_key(p));
                            let k = choose|k: int| 0 <= k < old_entries.len() && old_entries[k].path@ == p;
                            assert(e[k] == old_entries[k]);
                        }
                    }
                    assert forall|k: int, j: int| 0 <= k < j < e.len() implies e[k].path@ != e[j].path@ by {
                        if k != i as int && j != i as int {
                            assert(e[k] == old_entries[k] && e[j] == old_entries[j]);
                        } else if k == i as int {
                            assert(e[j] == old_entries[j]);
                        } else {
                            assert(e[k] == old_entries[k]);
                        }
                    }
                }
            },
            None => {
                let ghost p = path@;
                self.entries.push(ExemptPath { path, methods });
                self.table = Ghost(new_table);
                proof {
                    let e = self.entries@;
                    let n = old_entries.len() as int;
                    assert forall|k: int| 0 <= k < e.len() implies #[trigger] new_table.contains_key(
                        e[k].path@,
                    ) && new_table[e[k].path@] == e[k].methods@ by {
                        if k < n {
                            assert(old_entries[k] == e[k]);
                            assert(old(self).table@.contains_key(old_entries[k].path@));
                        }
                    }
                    assert forall|q: Seq<char>| #[trigger] new_table.contains_key(q) implies exists|k: int|
                        0 <= k < e.len() && e[k].path@ == q by {
                        if q != p {
                            assert(old(self).table@.contains_key(q));
                            let k = choose|k: int| 0 <= k < old_entries.len() && old_entries[k].path@ == q;
                            assert(e[k] == old_entries[k]);
                        } else {
                            assert(e[n].path@ == q);
                        }
                    }
                    assert forall|k: int, j: int| 0 <= k < j < e.len() implies e[k].path@ != e[j].path@ by {
                        if j == n {
                            assert(e[k] == old_entries[k]);
                            assert(old(self).table@.contains_key(old_entries[k].path@));
                        } else {
                            assert(e[k] == old_entries[k] && e[j] == old_entries[j]);
                        }
                    }
                }
            },
        }
    }

    /// The methods exempted on `path`, if the table lists it.
    pub fn methods_for(&self, path: &str) -> (r: Option<Vec<Method>>)
        requires
            self.wf(),
        ensures
            r is Some <==> self@.contains_key(path@),
            r matches Some(m) ==> m@ == self@[path@],
    {
        let key = path.to_owned();
        match self.position_of(&key) {
            Some(i) => Some(copy_methods(&self.entries[i].methods)),
            None => None,
        }
    }

    /// Whether a request for `path` with `method` skips authentication, where
    /// `active` tells whether authentication is switched on at all.
    pub fn is_exempt(&self, path: &str, method: Method, active: bool) -> (r: bool)
        requires
            self.wf(),
        ensures
            r == exempt(self@, path@, method, active),
    {
        if !active || method == Method::Options {
            return true;
        }
        match self.methods_for(path) {
            Some(methods) => contains_method(&methods, method),
            None => false,
        }
    }

    /// The service's exemptions: registration (`POST` on the users path, with
    /// and without a trailing slash).
    pub fn api_defaults() -> (r: Self)
        ensures
            r.wf(),
            r@ == Map::<Seq<char>, Seq<Method>>::empty().insert("/api/v1/users"@, seq![Method::Post]).insert(
                "/api/v1/users/"@,
                seq![Method::Post],
            ),
    {
        let mut t = ExemptionTable::new();
        let mut post: Vec<Method> = Vec::new();
        post.push(Method::Post);
        assert(post@ =~= seq![Method::Post]);
        t.insert("/api/v1/users".to_owned(), copy_methods(&post));
        t.insert("/api/v1/users/".to_owned(), post);
        t
    }
}

/// The bearer token in an `Authorization` header value, if there is one.
pub fn get_auth_token(header: Option<&str>) -> (r: Option<&str>)
    ensures
        str_view(r) == bearer_token(str_view(header)),
{
    match header {
        Some(h) => strip_prefix(h, BEARER_PREFIX),
        None => None,
    }
}

/// An authorization outcome that carries claims, as a decoding result.
pub open spec fn claims_of(r: Result<Option<AccessClaims>, ApiError>) -> Result<AccessClaimsView, ApiError> {
    match r {
        Ok(Some(c)) => Ok(c@),
        Ok(None) => Err(ApiError::NoAccessTokenHeader),
        Err(e) => Err(e),
    }
}

/// The authorization decision for one request at time `now`: exempt requests
/// pass without claims (`Ok(None)`); others need a bearer token in the
/// `Authorization` header that decodes as an unexpired access token, whose
/// claims are handed on (`Ok(Some(..))`).
pub fn authorize_request(
    exemptions: &ExemptionTable,
    jwt_config: &Jwt,
    path: &str,
    method: Method,
    authorization: Option<&str>,
    now: i64,
) -> (r: Result<Option<AccessClaims>, ApiError>)
    requires
        exemptions.wf(),
    ensures
        exempt(exemptions@, path@, method, jwt_config.active) ==> r matches Ok(None),
        !exempt(exemptions@, path@, method, jwt_config.active) ==> match bearer_token(str_view(authorization)) {
            None => r == Err::<Option<AccessClaims>, ApiError>(ApiError::NoAccessTokenHeader),
            Some(t) => !(r matches Ok(None)) && claims_of(r) == access_jwt_result(
                decoded_access(t, jwt_config.access_secret@, now),
            ),
        },
        r matches Ok(Some(c)) ==> now <= c.exp,
{
    if exemptions.is_exempt(path, method, jwt_config.active) {
        return Ok(None);
    }
    let token = match get_auth_token(authorization) {
        Some(t) => t,
        None => return Err(ApiError::NoAccessTokenHeader),
    };
    assert(str_view(Some(token)) == Some(token@));
    assert(bearer_token(str_view(authorization)) == Some(token@));
    let d = decode_access_jwt(token, jwt_config, now);
    let r = match d {
        Ok(claims) => Ok(Some(claims)),
        Err(e) => Err(e),
    };
    assert(claims_of(r) == access_api_result(d));
    r
}

} // verus!
