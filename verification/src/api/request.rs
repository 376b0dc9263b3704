//! Requests to the content service.

use vstd::prelude::*;
use vstd::string::StringExecFns;
use core::marker::PhantomData;
use crate::api::ApiError;
use crate::text::{push_signed, signed_decimal};

verus! {

/// What a request carries besides its address.
#[derive(Clone, Debug, PartialEq, Eq)]
pub enum ApiRequestBody<T> {
    /// Nothing.
    Empty,
    /// A value that is sent as JSON.
    Json(T),
}

/// The method of a request.
#[derive(Clone, Copy, Debug, PartialEq, Eq, Structural)]
pub enum ApiRequestKind {
    Post,
    Get,
}

impl ApiRequestKind {
    /// The name of the method.
    pub open spec fn name(self) -> Seq<char> {
        match self {
            ApiRequestKind::Get => "GET"@,
            ApiRequestKind::Post => "POST"@,
        }
    }

    /// The name of the method: `GET` or `POST`.
    pub fn to_string(&self) -> (text: String)
        ensures
            text@ == self.name(),
    {
        match self {
            ApiRequestKind::Get => String::from_str("GET"),
            ApiRequestKind::Post => String::from_str("POST"),
        }
    }
}

/// The mathematical value of a pair of strings.
pub open spec fn pair_view(pair: (String, String)) -> (Seq<char>, Seq<char>) {
    (pair.0@, pair.1@)
}

/// The mathematical value of a list of pairs of strings.
pub open spec fn pair_views(pairs: Seq<(String, String)>) -> Seq<(Seq<char>, Seq<char>)> {
    pairs.map_values(|pair: (String, String)| pair_view(pair))
}

/// The mathematical value of a list of strings.
pub open spec fn string_views(strings: Seq<String>) -> Seq<Seq<char>> {
    strings.map_values(|s: String| s@)
}

/// The parameter that carries one element of the list `key`.
pub open spec fn list_entry(key: Seq<char>, value: Seq<char>) -> (Seq<char>, Seq<char>) {
    (key + "[]"@, value)
}

/// The parameter that carries the entry `entry` of the object `key`.
pub open spec fn object_entry(key: Seq<char>, entry: (Seq<char>, Seq<char>)) -> (
    Seq<char>,
    Seq<char>,
) {
    (key + "["@ + entry.0 + "]"@, entry.1)
}

/// The parameters that carry the list `values` under the name `key`.
pub open spec fn list_entries(key: Seq<char>, values: Seq<Seq<char>>) -> Seq<(Seq<char>, Seq<char>)> {
    values.map_values(|value: Seq<char>| list_entry(key, value))
}

/// The parameters that carry the object `entries` under the name `key`.
pub open spec fn object_entries(key: Seq<char>, entries: Seq<(Seq<char>, Seq<char>)>) -> Seq<
    (Seq<char>, Seq<char>),
> {
    entries.map_values(|entry: (Seq<char>, Seq<char>)| object_entry(key, entry))
}

/// `parts`, each after `before` except the first.
pub open spec fn joined(parts: Seq<Seq<char>>, before: Seq<char>) -> Seq<char>
    decreases parts.len(),
{
    if parts.len() == 0 {
        Seq::empty()
    } else if parts.len() == 1 {
        parts[0]
    } else {
        joined(parts.drop_last(), before) + before + parts.last()
    }
}

/// A parameter as it is shown: its name, a colon and a space, its value.
pub open spec fn shown_pair(pair: (Seq<char>, Seq<char>)) -> Seq<char> {
    pair.0 + ": "@ + pair.1
}

/// A parameter as it is sent: its name, an equals sign, its value.
pub open spec fn sent_pair(pair: (Seq<char>, Seq<char>)) -> Seq<char> {
    pair.0 + "="@ + pair.1
}

/// A related resource that the answer is to hold as well, as it is sent.
pub open spec fn sent_include(name: Seq<char>) -> Seq<char> {
    "include[]="@ + name
}

/// The parameters of a request, in the order in which they were added. A
/// name may occur more than once.
#[derive(Debug, PartialEq, Eq)]
pub struct ApiRequestQuery {
    inner: Vec<(String, String)>,
}

impl View for ApiRequestQuery {
    type V = Seq<(Seq<char>, Seq<char>)>;

    closed spec fn view(&self) -> Seq<(Seq<char>, Seq<char>)> {
        pair_views(self.inner@)
    }
}

impl Clone for ApiRequestQuery {
    fn clone(&self) -> (copy: Self)
        ensures
            copy@ == self@,
    {
        let mut inner: Vec<(String, String)> = Vec::new();
        let mut i: usize = 0;
        while i < self.inner.len()
            invariant
                i <= self.inner@.len(),
                inner@.len() == i,
                forall|j: int| 0 <= j < i ==> pair_view(#[trigger] inner@[j]) == pair_view(self.inner@[j]),
            decreases self.inner@.len() - i,
        {
            inner.push((self.inner[i].0.clone(), self.inner[i].1.clone()));
            i += 1;
        }
        let copy = ApiRequestQuery { inner };
        assert(copy@ =~= self@);
        copy
    }
}

impl ApiRequestQuery {
    /// The parameters as they are stored.
    pub closed spec fn entries(&self) -> Seq<(String, String)> {
        self.inner@
    }

    /// No parameters.
    pub fn new() -> (query: Self)
        ensures
            query@ == Seq::<(Seq<char>, Seq<char>)>::empty(),
    {
        let query = ApiRequestQuery { inner: Vec::new() };
        assert(query@ =~= Seq::empty());
        query
    }

    /// Whether there is no parameter.
    pub fn is_empty(&self) -> (b: bool)
        ensures
            b == (self@.len() == 0),
    {
        self.inner.len() == 0
    }

    /// How many parameters there are.
    pub fn len(&self) -> (n: usize)
        ensures
            n == self@.len(),
    {
        self.inner.len()
    }

    /// The `index`-th parameter.
    pub fn get(&self, index: usize) -> (pair: Option<&(String, String)>)
        ensures
            match pair {
                Some(found) => index < self@.len() && pair_view(*found) == self@[index as int],
                None => index >= self@.len(),
            },
    {
        if index < self.inner.len() {
            Some(&self.inner[index])
        } else {
            None
        }
    }

    /// Walks the parameters in order.
    pub fn iter(&self) -> (iter: core::slice::Iter<'_, (String, String)>)
        ensures
            vstd::std_specs::slice::into_iter_elts(iter) == self.entries(),
            pair_views(vstd::std_specs::slice::into_iter_elts(iter)) == self@,
    {
        self.inner.iter()
    }

    /// Adds the parameter `key` with the value `value`, after those that
    /// are there.
    pub fn insert(&mut self, key: &str, value: &str)
        ensures
            final(self)@ == old(self)@.push((key@, value@)),
    {
        self.inner.push((String::from_str(key), String::from_str(value)));
        assert(self@ =~= old(self)@.push((key@, value@)));
    }

    /// Adds the parameter `key` with the number `value`.
    pub fn insert_number(&mut self, key: &str, value: i64)
        ensures
            final(self)@ == old(self)@.push((key@, signed_decimal(value as int))),
    {
        let mut text = String::new();
        push_signed(&mut text, value);
        assert(text@ =~= signed_decimal(value as int));
        self.insert(key, text.as_str());
    }

    /// Adds each of `value` as a parameter `key[]`.
    pub fn insert_vec(&mut self, key: &str, value: &Vec<String>)
        ensures
            final(self)@ == old(self)@ + list_entries(key@, string_views(value@)),
    {
        let mut name = String::from_str(key);
        name.append("[]");
        let mut i: usize = 0;
        assert(self@ =~= old(self)@ + list_entries(key@, string_views(value@)).subrange(0, 0));
        while i < value.len()
            invariant
                i <= value@.len(),
                name@ == key@ + "[]"@,
                self@ == old(self)@ + list_entries(key@, string_views(value@)).subrange(0, i as int),
            decreases value@.len() - i,
        {
            let ghost before = self@;
            self.insert(name.as_str(), value[i].as_str());
            i += 1;
            assert(self@ =~= old(self)@ + list_entries(key@, string_views(value@)).subrange(
                0,
                i as int,
            ));
        }
        assert(list_entries(key@, string_views(value@)).subrange(0, i as int) =~= list_entries(
            key@,
            string_views(value@),
        ));
    }

    /// Adds each entry of `value`, a list of names and values, as a
    /// parameter `key[name]`.
    pub fn insert_map(&mut self, key: &str, value: &Vec<(String, String)>)
        ensures
            final(self)@ == old(self)@ + object_entries(key@, pair_views(value@)),
    {
        let mut i: usize = 0;
        assert(self@ =~= old(self)@ + object_entries(key@, pair_views(value@)).subrange(0, 0));
        while i < value.len()
            invariant
                i <= value@.len(),
                self@ == old(self)@ + object_entries(key@, pair_views(value@)).subrange(0, i as int),
            decreases value@.len() - i,
        {
            let mut name = String::from_str(key);
            name.append("[");
            name.append(value[i].0.as_str());
            name.append("]");
            self.insert(name.as_str(), value[i].1.as_str());
            i += 1;
            assert(self@ =~= old(self)@ + object_entries(key@, pair_views(value@)).subrange(
                0,
                i as int,
            ));
        }
        assert(object_entries(key@, pair_views(value@)).subrange(0, i as int) =~= object_entries(
            key@,
            pair_views(value@),
        ));
    }

    /// Adds the parameter `key` where `value` holds a value.
    pub fn insert_option(&mut self, key: &str, value: Option<&str>)
        ensures
            final(self)@ == match value {
                Some(v) => old(self)@.push((key@, v@)),
                None => old(self)@,
            },
    {
        if let Some(v) = value {
            self.insert(key, v);
        }
    }

    /// Adds each of `value` as a parameter `key[]` where `value` holds a
    /// list.
    pub fn insert_vec_option(&mut self, key: &str, value: &Option<Vec<String>>)
        ensures
            final(self)@ == match *value {
                Some(v) => old(self)@ + list_entries(key@, string_views(v@)),
                None => old(self)@,
            },
    {
        if let Some(v) = value {
            self.insert_vec(key, v);
        }
    }

    /// Adds each entry of `value` as a parameter `key[name]` where `value`
    /// holds an object.
    pub fn insert_map_option(&mut self, key: &str, value: &Option<Vec<(String, String)>>)
        ensures
            final(self)@ == match *value {
                Some(v) => old(self)@ + object_entries(key@, pair_views(v@)),
                None => old(self)@,
            },
    {
        if let Some(v) = value {
            self.insert_map(key, v);
        }
    }

    /// The parameters, in order.
    pub fn into_pairs(self) -> (pairs: Vec<(String, String)>)
        ensures
            pair_views(pairs@) == self@,
    {
        self.inner
    }

    /// The parameters as they are shown: in braces, separated by commas,
    /// each as its name, a colon and its value.
    pub fn to_string(&self) -> (text: String)
        ensures
            text@ == "{"@ + joined(self@.map_values(|pair: (Seq<char>, Seq<char>)| shown_pair(pair)), ", "@)
                + "}"@,
    {
        let ghost parts = self@.map_values(|pair: (Seq<char>, Seq<char>)| shown_pair(pair));
        let mut list = String::new();
        let mut i: usize = 0;
        assert(parts.subrange(0, 0) =~= Seq::<Seq<char>>::empty());
        while i < self.inner.len()
            invariant
                i <= self.inner@.len(),
                parts == self@.map_values(|pair: (Seq<char>, Seq<char>)| shown_pair(pair)),
                list@ == joined(parts.subrange(0, i as int), ", "@),
            decreases self.inner@.len() - i,
        {
            if i > 0 {
                list.append(", ");
            }
            list.append(self.inner[i].0.as_str());
            list.append(": ");
            list.append(self.inner[i].1.as_str());
            proof {
                let next = parts.subrange(0, i + 1);
                assert(next.drop_last() =~= parts.subrange(0, i as int));
                assert(next.last() =~= self.inner@[i as int].0@ + ": "@ + self.inner@[i as int].1@);
                assert(list@ =~= joined(next, ", "@));
            }
            i += 1;
        }
        assert(parts.subrange(0, i as int) =~= parts);
        let mut text = String::from_str("{");
        text.append(list.as_str());
        text.append("}");
        text
    }
}

/// The parts of a query string: the parameters first, then the related
/// resources that the answer is to hold as well.
pub open spec fn query_parts(query: Seq<(Seq<char>, Seq<char>)>, includes: Seq<Seq<char>>) -> Seq<
    Seq<char>,
> {
    query.map_values(|pair: (Seq<char>, Seq<char>)| sent_pair(pair)) + includes.map_values(
        |name: Seq<char>| sent_include(name),
    )
}

/// The query string of a request: its parts joined by `&`, or nothing where
/// there is no part.
pub open spec fn query_text(query: Seq<(Seq<char>, Seq<char>)>, includes: Seq<Seq<char>>) -> Option<
    Seq<char>,
> {
    if query.len() + includes.len() == 0 {
        None
    } else {
        Some(joined(query_parts(query, includes), "&"@))
    }
}

/// Any request to the service. `A` is the type of what it carries, `B` the
/// type of the answer.
pub struct ApiRequest<A, B> {
    /// The related resources that the answer is to hold as well.
    pub includes: Vec<String>,
    /// The parameters.
    pub query: ApiRequestQuery,
    /// The method.
    pub kind: ApiRequestKind,
    /// The path below the address of the service.
    pub endpoint: String,
    /// What the request carries.
    pub body: ApiRequestBody<A>,
    pub _phantom: PhantomData<B>,
}

/// A request as it goes to the network layer.
#[derive(Clone, Debug, PartialEq, Eq)]
pub struct BuiltRequest {
    /// The method.
    pub kind: ApiRequestKind,
    /// The path below the address of the service.
    pub path: String,
    /// The query string, if there is one.
    pub query: Option<String>,
    /// The value of the `Authorization` header, if one is sent.
    pub authorization: Option<String>,
}

impl<A, B> Default for ApiRequest<A, B> {
    fn default() -> (request: Self)
        ensures
            request.includes@ == Seq::<String>::empty(),
            request.query@ == Seq::<(Seq<char>, Seq<char>)>::empty(),
            request.kind == ApiRequestKind::Get,
            request.endpoint@ == "/"@,
            request.body is Empty,
    {
        ApiRequest {
            includes: Vec::new(),
            query: ApiRequestQuery::new(),
            kind: ApiRequestKind::Get,
            endpoint: String::from_str("/"),
            body: ApiRequestBody::Empty,
            _phantom: PhantomData,
        }
    }
}

/// A copy of the list of strings `strings`.
fn copy_strings(strings: &Vec<String>) -> (copy: Vec<String>)
    ensures
        copy@ == strings@,
{
    let mut copy: Vec<String> = Vec::new();
    let mut i: usize = 0;
    while i < strings.len()
        invariant
            i <= strings@.len(),
            copy@ == strings@.subrange(0, i as int),
        decreases strings@.len() - i,
    {
        copy.push(strings[i].clone());
        i += 1;
        assert(copy@ =~= strings@.subrange(0, i as int));
    }
    assert(strings@.subrange(0, i as int) =~= strings@);
    copy
}

impl<A: Clone, B> Clone for ApiRequest<A, B> {
    fn clone(&self) -> (copy: Self)
        ensures
            copy.includes@ == self.includes@,
            copy.query@ == self.query@,
            copy.kind == self.kind,
            copy.endpoint == self.endpoint,
            self.body is Empty ==> copy.body is Empty,
            !(self.body is Empty) ==> !(copy.body is Empty),
    {
        ApiRequest {
            includes: copy_strings(&self.includes),
            query: self.query.clone(),
            kind: self.kind,
            endpoint: self.endpoint.clone(),
            body: match &self.body {
                ApiRequestBody::Empty => ApiRequestBody::Empty,
                ApiRequestBody::Json(value) => ApiRequestBody::Json(value.clone()),
            },
            _phantom: PhantomData,
        }
    }
}

impl<A, B> ApiRequest<A, B> {
    /// Another request of the same kind for the same path, with the
    /// parameters `query` and nothing to carry.
    pub fn with_query<C>(&self, query: ApiRequestQuery) -> (request: ApiRequest<(), C>)
        ensures
            request.includes@ == self.includes@,
            request.query == query,
            request.kind == self.kind,
            request.endpoint == self.endpoint,
            request.body is Empty,
    {
        ApiRequest {
            includes: copy_strings(&self.includes),
            query,
            kind: self.kind,
            endpoint: self.endpoint.clone(),
            body: ApiRequestBody::Empty,
            _phantom: PhantomData,
        }
    }

    /// Puts the request together: its method, its path, its query string
    /// and, where there is a session, the header that carries it.
    pub fn build(&self, session: &Option<String>) -> (built: BuiltRequest)
        ensures
            built.kind == self.kind,
            built.path@ == self.endpoint@,
            match query_text(self.query@, string_views(self.includes@)) {
                Some(text) => built.query is Some && built.query->0@ == text,
                None => built.query is None,
            },
            match *session {
                Some(token) => built.authorization is Some && built.authorization->0@ == token@,
                None => built.authorization is None,
            },
    {
        let ghost parts = query_parts(self.query@, string_views(self.includes@));
        let ghost from_query = self.query@.map_values(|pair: (Seq<char>, Seq<char>)| sent_pair(pair));
        let mut text = String::new();
        let mut i: usize = 0;
        assert(parts.subrange(0, 0) =~= Seq::<Seq<char>>::empty());
        while i < self.query.len()
            invariant
                i <= self.query@.len(),
                parts == query_parts(self.query@, string_views(self.includes@)),
                text@ == joined(parts.subrange(0, i as int), "&"@),
            decreases self.query@.len() - i,
        {
            if i > 0 {
                text.append("&");
            }
            match self.query.get(i) {
                Some(pair) => {
                    text.append(pair.0.as_str());
                    text.append("=");
                    text.append(pair.1.as_str());
                    proof {
                        let next = parts.subrange(0, i + 1);
                        assert(next.drop_last() =~= parts.subrange(0, i as int));
                        assert(next.last() =~= sent_pair(self.query@[i as int]));
                        assert(text@ =~= joined(next, "&"@));
                    }
                },
                None => {},
            }
            i += 1;
        }
        let shift: usize = self.query.len();
        let mut j: usize = 0;
        while j < self.includes.len()
            invariant
                j <= self.includes@.len(),
                shift == self.query@.len(),
                parts == query_parts(self.query@, string_views(self.includes@)),
                text@ == joined(parts.subrange(0, shift + j), "&"@),
            decreases self.includes@.len() - j,
        {
            if shift > 0 || j > 0 {
                text.append("&");
            }
            text.append("include[]=");
            text.append(self.includes[j].as_str());
            proof {
                let next = parts.subrange(0, shift + j + 1);
                assert(next.drop_last() =~= parts.subrange(0, shift + j));
                assert(next.last() =~= sent_include(self.includes@[j as int]@));
                assert(text@ =~= joined(next, "&"@));
            }
            j += 1;
        }
        assert(parts.subrange(0, shift + j) =~= parts);
        let query = if self.query.len() == 0 && self.includes.len() == 0 {
            None
        } else {
            Some(text)
        };
        let authorization = match session {
            Some(token) => Some(token.clone()),
            None => None,
        };
        BuiltRequest { kind: self.kind, path: self.endpoint.clone(), query, authorization }
    }
}

/// For how many seconds to hold back after the service has said that too
/// many requests were sent: until the time it named, or five seconds where
/// it named none, and not at all where that time has passed.
pub open spec fn hold_back(retry_at: Option<i64>, now: i64) -> nat {
    match retry_at {
        Some(at) => if at > now {
            (at - now) as nat
        } else {
            0
        },
        None => 5,
    }
}

/// What the status of a response means.
pub open spec fn meaning(status: u16, retry_at: Option<i64>, now: i64) -> Result<(), ApiError> {
    if status == 200 {
        Ok(())
    } else if status == 400 {
        Err(ApiError::BadRequest)
    } else if status == 401 || status == 403 {
        Err(ApiError::Auth)
    } else if status == 500 {
        Err(ApiError::Them)
    } else if status == 429 {
        Err(ApiError::RateLimit(hold_back(retry_at, now) as u64))
    } else {
        Err(ApiError::Other)
    }
}

/// What the status of a response means: `200` is success, `400` a bad
/// request, `401` and `403` a problem with the authentication, `500` a
/// failure of the service, `429` a rate limit that lasts until the second
/// `retry_at`, counted from the second `now`, and anything else an error
/// without a name.
pub fn classify(status: u16, retry_at: Option<i64>, now: i64) -> (result: Result<(), ApiError>)
    ensures
        result == meaning(status, retry_at, now),
{
    if status == 200 {
        Ok(())
    } else if status == 400 {
        Err(ApiError::BadRequest)
    } else if status == 401 || status == 403 {
        Err(ApiError::Auth)
    } else if status == 500 {
        Err(ApiError::Them)
    } else if status == 429 {
        let seconds: u64 = match retry_at {
            Some(at) => if at > now {
                ((at as i128) - (now as i128)) as u64
            } else {
                0
            },
            None => 5,
        };
        Err(ApiError::RateLimit(seconds))
    } else {
        Err(ApiError::Other)
    }
}

/// What to do with the outcome of an attempt.
#[derive(Clone, Copy, Debug, PartialEq, Eq, Structural)]
pub enum SendStep {
    /// Hand the outcome to the caller.
    Return,
    /// Wait this many milliseconds, then send again.
    Wait(u64),
    /// Renew the session; send again if that worked, and hand the error of
    /// the renewal to the caller if it did not.
    Refresh,
}

/// How long to wait after a rate limit of `seconds` seconds, in
/// milliseconds: a little longer than asked, to be safe.
pub open spec fn rate_limit_wait(seconds: u64) -> u64 {
    if seconds * 1000 + 500 <= u64::MAX {
        (seconds * 1000 + 500) as u64
    } else {
        u64::MAX
    }
}

/// The remedy for an outcome, given how many remedies have been tried
/// before: a rate limit is waited out, but only as the first remedy; a
/// failure of the service is given a second, unless a later remedy was
/// tried already; a problem with the authentication is answered by renewing
/// the session, once. Everything else goes to the caller.
pub open spec fn remedy(tried: nat, error: Option<ApiError>) -> SendStep {
    match error {
        Some(ApiError::RateLimit(seconds)) => if tried == 0 {
            SendStep::Wait(rate_limit_wait(seconds))
        } else {
            SendStep::Return
        },
        Some(ApiError::Them) => if tried <= 1 {
            SendStep::Wait(1000)
        } else {
            SendStep::Return
        },
        Some(ApiError::Auth) => if tried <= 2 {
            SendStep::Refresh
        } else {
            SendStep::Return
        },
        _ => SendStep::Return,
    }
}

/// How many remedies count as tried after `step` was chosen.
pub open spec fn tried_after(tried: nat, step: SendStep, error: Option<ApiError>) -> nat {
    match step {
        SendStep::Return => tried,
        SendStep::Wait(_) => if error matches Some(ApiError::RateLimit(_)) {
            1
        } else {
            2
        },
        SendStep::Refresh => 3,
    }
}

/// The error of an outcome, if it is one.
pub open spec fn error_of<T>(outcome: Result<T, ApiError>) -> Option<ApiError> {
    match outcome {
        Ok(_) => None,
        Err(error) => Some(error),
    }
}

/// Keeps track of the attempts to send one request.
pub struct Retry {
    tried: u8,
}

impl Retry {
    /// How many remedies have been tried.
    pub closed spec fn tried(&self) -> nat {
        self.tried as nat
    }

    /// Before the first attempt.
    pub fn new() -> (retry: Self)
        ensures
            retry.tried() == 0,
    {
        Retry { tried: 0 }
    }

    /// What to do with the outcome of an attempt.
    pub fn decide<T>(&mut self, outcome: &Result<T, ApiError>) -> (step: SendStep)
        requires
            old(self).tried() <= 3,
        ensures
            step == remedy(old(self).tried(), error_of(*outcome)),
            final(self).tried() == tried_after(old(self).tried(), step, error_of(*outcome)),
            final(self).tried() <= 3,
            !(step is Return) ==> final(self).tried() > old(self).tried(),
    {
        match outcome {
            Err(ApiError::RateLimit(seconds)) => {
                if self.tried == 0 {
                    self.tried = 1;
                    let millis: u64 = if *seconds <= (u64::MAX - 500) / 1000 {
                        *seconds * 1000 + 500
                    } else {
                        u64::MAX
                    };
                    SendStep::Wait(millis)
                } else {
                    SendStep::Return
                }
            },
            Err(ApiError::Them) => {
                if self.tried <= 1 {
                    self.tried = 2;
                    SendStep::Wait(1000)
                } else {
                    SendStep::Return
                }
            },
            Err(ApiError::Auth) => {
                if self.tried <= 2 {
                    self.tried = 3;
                    SendStep::Refresh
                } else {
                    SendStep::Return
                }
            },
            _ => SendStep::Return,
        }
    }
}

/// The parameters that ask for one page of a list.
#[derive(Clone, Copy, Debug, PartialEq, Eq, Structural)]
pub struct PageQuery {
    /// How many items to send at most.
    pub limit: i32,
    /// How many items to skip.
    pub offset: i32,
}

/// Whether `x` is a value of `i32`.
pub open spec fn fits(x: int) -> bool {
    i32::MIN <= x <= i32::MAX
}

/// The smaller of two numbers.
pub open spec fn least(a: int, b: int) -> int {
    if a <= b {
        a
    } else {
        b
    }
}

/// Where a walk through the pages of a list stands.
#[derive(Clone, Copy, Debug, PartialEq, Eq, Structural)]
pub struct Pager {
    /// The most that one page may hold.
    pub limit: i32,
    /// How many items have been skipped or received.
    pub offset: i32,
    /// How many items are still wanted; none when it is not positive.
    pub count: i32,
    /// How many items the next page is asked to hold.
    pub chunk: i32,
    /// How many pages have been received.
    pub pages: u8,
}

/// The walk before its first page: `count` items are wanted from `offset`
/// on, in pages of `limit` items at most.
pub open spec fn pager_start(limit: i32, offset: i32, count: i32) -> Pager {
    Pager { limit, offset, count, chunk: least(limit as int, count as int) as i32, pages: 0 }
}

/// The walk after a page of `received` items of a list of `total` items.
/// The page moves the offset on, and what is still wanted is the smaller of
/// what the list has left and what was wanted less what came. From the
/// second page on, the size of the next page is adapted to that. Where a
/// number leaves the range of `i32`, the walk ends.
pub open spec fn pager_after(pager: Pager, received: i32, total: i32) -> Pager {
    let offset = pager.offset + received;
    let count = least(total - offset, pager.count - received);
    if !fits(offset) || !fits(count) {
        Pager {
            count: 0,
            pages: if pager.pages == 0 {
                1
            } else {
                pager.pages
            },
            ..pager
        }
    } else {
        Pager {
            limit: pager.limit,
            offset: offset as i32,
            count: count as i32,
            chunk: if pager.pages == 0 {
                pager.chunk
            } else {
                least(pager.limit as int, count) as i32
            },
            pages: if pager.pages == 0 {
                1
            } else {
                2
            },
        }
    }
}

/// The page to ask for next, if one is.
pub open spec fn pager_query(pager: Pager) -> Option<PageQuery> {
    if pager.pages == 0 || pager.count > 0 {
        Some(PageQuery { limit: pager.chunk, offset: pager.offset })
    } else {
        None
    }
}

impl Pager {
    /// A walk that wants `count` items from `offset` on, in pages of
    /// `limit` items at most.
    pub fn new(limit: i32, offset: i32, count: i32) -> (pager: Self)
        ensures
            pager == pager_start(limit, offset, count),
    {
        let chunk: i32 = if limit <= count {
            limit
        } else {
            count
        };
        Pager { limit, offset, count, chunk, pages: 0 }
    }

    /// The page to ask for next. The first page is always asked for; a
    /// further one only while items are wanted.
    pub fn query(&self) -> (query: Option<PageQuery>)
        ensures
            query == pager_query(*self),
    {
        if self.pages == 0 || self.count > 0 {
            Some(PageQuery { limit: self.chunk, offset: self.offset })
        } else {
            None
        }
    }

    /// Takes note of a page of `received` items of a list of `total`
    /// items.
    pub fn advance(&mut self, received: i32, total: i32)
        ensures
            *final(self) == pager_after(*old(self), received, total),
    {
        let offset: i64 = self.offset as i64 + received as i64;
        let left: i64 = total as i64 - offset;
        let wanted: i64 = self.count as i64 - received as i64;
        let count: i64 = if left <= wanted {
            left
        } else {
            wanted
        };
        if offset < i32::MIN as i64 || offset > i32::MAX as i64 || count < i32::MIN as i64 || count
            > i32::MAX as i64 {
            self.count = 0;
            if self.pages == 0 {
                self.pages = 1;
            }
        } else {
            self.offset = offset as i32;
            self.count = count as i32;
            if self.pages == 0 {
                self.pages = 1;
            } else {
                self.chunk = if (self.limit as i64) <= count {
                    self.limit
                } else {
                    count as i32
                };
                self.pages = 2;
            }
        }
    }
}

/// How many further pages a list of `total` items has after its first
/// page of `limit` items.
pub open spec fn further_pages(limit: i32, total: i32) -> nat {
    if total <= limit || limit <= 0 {
        0
    } else {
        ((total - 1) / (limit as int)) as nat
    }
}

/// The offsets of the pages after the first, for a list of `total` items
/// that is fetched whole in pages of `limit` items: every multiple of
/// `limit` that is below `total`, in ascending order.
pub fn following_offsets(limit: i32, total: i32) -> (offsets: Vec<i32>)
    requires
        limit > 0,
    ensures
        offsets@.len() == further_pages(limit, total),
        forall|i: int| 0 <= i < offsets@.len() ==> #[trigger] offsets@[i] == (i + 1) * limit,
        forall|i: int| 0 <= i < offsets@.len() ==> limit <= #[trigger] offsets@[i] < total,
{
    let mut offsets: Vec<i32> = Vec::new();
    let mut offset: i64 = limit as i64;
    assert((0 + 1) * limit == limit) by (nonlinear_arith);
    while offset < total as i64
        invariant
            limit > 0,
            offset == (offsets@.len() + 1) * limit,
            offset <= i32::MAX + limit,
            offsets@.len() <= further_pages(limit, total),
            forall|i: int| 0 <= i < offsets@.len() ==> #[trigger] offsets@[i] == (i + 1) * limit,
            forall|i: int| 0 <= i < offsets@.len() ==> limit <= #[trigger] offsets@[i] < total,
        decreases further_pages(limit, total) - offsets@.len(),
    {
        let ghost n = offsets@.len() as int;
        proof {
            assert(n + 1 <= (total - 1) / (limit as int)) by (nonlinear_arith)
                requires
                    (n + 1) * limit < total,
                    limit > 0,
            ;
            assert((n + 2) * limit == (n + 1) * limit + limit) by (nonlinear_arith);
            assert((n + 1) * limit >= limit) by (nonlinear_arith)
                requires
                    n >= 0,
                    limit > 0,
            ;
            assert(total > limit);
        }
        offsets.push(offset as i32);
        offset = offset + (limit as i64);
        assert(offsets@.len() == n + 1);
    }
    proof {
        let n = offsets@.len() as int;
        if total > limit {
            assert((total - 1) / (limit as int) <= n) by (nonlinear_arith)
                requires
                    (n + 1) * limit >= total,
                    limit > 0,
                    n >= 0,
            ;
        }
    }
    offsets
}

/// Sending a request ends: each remedy is tried at most once and none after
/// a later one, so a request is sent four times at most.
pub proof fn lemma_retries_are_bounded(tried: nat, error: Option<ApiError>)
    requires
        tried <= 3,
    ensures
        tried_after(tried, remedy(tried, error), error) <= 3,
        !(remedy(tried, error) is Return) ==> tried_after(tried, remedy(tried, error), error)
            > tried,
        tried == 3 ==> remedy(tried, error) is Return,
{
}

} // verus!
