//! Client for the EMT Madrid transit API: builds the login and arrivals
//! requests, and interprets the JSON response bodies. The transport itself
//! (HTTP) is left to the caller; this module turns response bytes into
//! arrival data, delegating JSON parsing to `serde_json` behind trusted
//! wrappers whose results are named by uninterpreted spec functions.

use vstd::prelude::*;
use vstd::string::*;
use serde_json::Value;

verus! {

/// Login failure: the response held no access token at the expected path.
#[derive(Debug, Clone, Copy, PartialEq, Eq, Structural)]
pub enum AuthError {
    TokenMissing,
}

/// Failure of one arrivals fetch.
#[derive(Debug, Clone, Copy, PartialEq, Eq, Structural)]
pub enum FetchError {
    /// Transport failure; produced by the caller that performs the request.
    Network,
    /// The response body is not valid JSON.
    Parse,
    /// The expected arrivals array, or a field of one arrival, is absent.
    Missing,
}

/// One real-time arrival estimate at a stop.
#[derive(Debug)]
pub struct ArrivalTime {
    pub stop_id: String,
    pub line: String,
    pub destination: String,
    /// Seconds until the bus arrives; `0` means "arriving now", values above
    /// the no-estimate sentinel mean "no estimate available".
    pub seconds_until_arrival: u64,
}

impl Clone for ArrivalTime {
    fn clone(&self) -> (res: Self)
        ensures
            res == *self,
    {
        ArrivalTime {
            stop_id: self.stop_id.clone(),
            line: self.line.clone(),
            destination: self.destination.clone(),
            seconds_until_arrival: self.seconds_until_arrival,
        }
    }
}

/// The fields of one element of the arrivals array, each as the response
/// held it (`None` where the field is absent or of the wrong type).
pub struct RawArrival {
    pub line: Option<String>,
    pub destination: Option<String>,
    pub seconds: Option<u64>,
}

/// Mathematical image of a `RawArrival`.
pub struct RawArrivalView {
    pub line: Option<Seq<char>>,
    pub destination: Option<Seq<char>>,
    pub seconds: Option<u64>,
}

impl View for RawArrival {
    type V = RawArrivalView;

    open spec fn view(&self) -> RawArrivalView {
        RawArrivalView {
            line: match self.line {
                Some(s) => Some(s@),
                None => None,
            },
            destination: match self.destination {
                Some(s) => Some(s@),
                None => None,
            },
            seconds: self.seconds,
        }
    }
}

/// What an arrivals response body holds at the path `data[0].Arrive`.
pub enum ArriveDoc {
    /// The body is not valid JSON.
    Invalid,
    /// Valid JSON, but no array at the expected path.
    MissingArrive,
    /// The elements of the array, field by field.
    Entries(Seq<RawArrivalView>),
}

/// The access token string at the path `data[0].accessToken` of the JSON
/// document in `body`, if `body` is valid JSON and that path holds a string.
pub uninterp spec fn login_token_of(body: Seq<u8>) -> Option<Seq<char>>;

/// What the JSON document in `body` holds at the path `data[0].Arrive`.
pub uninterp spec fn arrive_doc_of(body: Seq<u8>) -> ArriveDoc;

/// Relies on `serde_json::from_slice` and `serde_json::Value::{get, as_str}`:
/// returns the string at the path `data[0].accessToken` of the JSON document
/// in `body`, or `None` when the body is not valid JSON or the path holds no
/// string.
#[verifier::external_body]
fn extract_login_token(body: &[u8]) -> (r: Option<String>)
    ensures
        match r {
            Some(t) => login_token_of(body@) == Some(t@),
            None => login_token_of(body@) is None,
        },
{
    match serde_json::from_slice::<Value>(body) {
        Ok(doc) => doc
            .get("data")
            .and_then(|d| d.get(0))
            .and_then(|d| d.get("accessToken"))
            .and_then(|t| t.as_str())
            .map(String::from),
        Err(_) => None,
    }
}

/// Relies on `serde_json::from_slice` and
/// `serde_json::Value::{get, as_array, as_str, as_u64}`: hands out the array
/// at the path `data[0].Arrive` with each element converted to its plain
/// fields, or says which of the two failures the body holds.
#[verifier::external_body]
fn extract_arrive_entries(body: &[u8]) -> (r: Result<Vec<RawArrival>, FetchError>)
    ensures
        match r {
            Ok(entries) => arrive_doc_of(body@) == ArriveDoc::Entries(
                entries@.map_values(|e: RawArrival| e@),
            ),
            Err(e) => (e == FetchError::Parse && arrive_doc_of(body@) == ArriveDoc::Invalid) || (
            e == FetchError::Missing && arrive_doc_of(body@) == ArriveDoc::MissingArrive),
        },
{
    let doc: Value = match serde_json::from_slice(body) {
        Ok(v) => v,
        Err(_) => return Err(FetchError::Parse),
    };
    let arr = doc.get("data").and_then(|d| d.get(0)).and_then(|d| d.get("Arrive"));
    match arr.and_then(Value::as_array) {
        None => Err(FetchError::Missing),
        Some(items) => Ok(items.iter().map(|e| RawArrival {
            line: e.get("line").and_then(Value::as_str).map(String::from),
            destination: e.get("destination").and_then(Value::as_str).map(String::from),
            seconds: e.get("estimateArrive").and_then(Value::as_u64),
        }).collect()),
    }
}

/// An HTTP request for the caller's transport to perform: URL, headers,
/// and an optional body to post.
pub struct HttpRequestPlan {
    pub url: String,
    pub headers: Vec<(String, String)>,
    pub body: Option<String>,
}

/// Every field of one raw arrival is present.
pub open spec fn raw_complete(e: RawArrivalView) -> bool {
    e.line is Some && e.destination is Some && e.seconds is Some
}

/// Every element of the arrivals array has all its fields.
pub open spec fn all_complete(es: Seq<RawArrivalView>) -> bool {
    forall|i: int| 0 <= i < es.len() ==> raw_complete(#[trigger] es[i])
}

/// `a` is the arrival built for stop `stop` from the raw element `e`.
pub open spec fn arrival_matches(a: ArrivalTime, e: RawArrivalView, stop: Seq<char>) -> bool {
    &&& a.stop_id@ == stop
    &&& e.line matches Some(l) && a.line@ == l
    &&& e.destination matches Some(d) && a.destination@ == d
    &&& e.seconds matches Some(s) && a.seconds_until_arrival == s
}

/// Client of the transit API. It holds the credentials and, once a login
/// response has been applied, the session's access token; the token is
/// reused for every later arrivals request and never refreshed.
pub struct EMTMadridClient {
    pub access_token: Option<String>,
    pub email: String,
    pub password: String,
}

impl EMTMadridClient {
    /// The client holds an access token and can issue arrivals requests.
    pub open spec fn has_token(&self) -> bool {
        self.access_token is Some
    }

    /// A client that still has to log in.
    pub fn new_from_email(email: &str, password: &str) -> (c: Self)
        ensures
            c.access_token is None,
            c.email@ == email@,
            c.password@ == password@,
    {
        EMTMadridClient {
            access_token: None,
            email: String::from_str(email),
            password: String::from_str(password),
        }
    }

    /// A client with a session token already in hand.
    pub fn new_with_token(token: &str, email: &str, password: &str) -> (c: Self)
        ensures
            c.access_token matches Some(t) && t@ == token@,
            c.email@ == email@,
            c.password@ == password@,
    {
        EMTMadridClient {
            access_token: Some(String::from_str(token)),
            email: String::from_str(email),
            password: String::from_str(password),
        }
    }

    /// The login request: credentials travel in the two headers.
    pub fn login_request(&self) -> (r: HttpRequestPlan)
        ensures
            r.url@ == "https://openapi.emtmadrid.es/v1/mobilitylabs/user/login/"@,
            r.headers@.len() == 2,
            r.headers@[0].0@ == "email"@ && r.headers@[0].1@ == self.email@,
            r.headers@[1].0@ == "password"@ && r.headers@[1].1@ == self.password@,
            r.body is None,
    {
        let mut headers: Vec<(String, String)> = Vec::new();
        headers.push((String::from_str("email"), self.email.clone()));
        headers.push((String::from_str("password"), self.password.clone()));
        HttpRequestPlan {
            url: String::from_str("https://openapi.emtmadrid.es/v1/mobilitylabs/user/login/"),
            headers,
            body: None,
        }
    }

    /// Applies a login response: stores the access token when the response
    /// holds one at the expected path, else reports `AuthError` and leaves
    /// the client unchanged.
    pub fn login(&mut self, response_body: &[u8]) -> (r: Result<(), AuthError>)
        ensures
            final(self).email == old(self).email,
            final(self).password == old(self).password,
            match login_token_of(response_body@) {
                Some(t) => {
                    &&& r is Ok
                    &&& final(self).access_token matches Some(tok) && tok@ == t
                },
                None => {
                    &&& r == Err::<(), AuthError>(AuthError::TokenMissing)
                    &&& final(self).access_token == old(self).access_token
                },
            },
    {
        match extract_login_token(response_body) {
            Some(token) => {
                self.access_token = Some(token);
                Ok(())
            },
            None => Err(AuthError::TokenMissing),
        }
    }

    /// The arrivals request for one stop: the URL names the stop, the token
    /// travels in a header, and the body asks for textual estimations.
    pub fn arrivals_request(&self, stop_id: &str) -> (r: HttpRequestPlan)
        requires
            self.has_token(),
        ensures
            r.url@ == "https://openapi.emtmadrid.es/v1/transport/busemtmad/stops/"@ + stop_id@
                + "/arrives/"@,
            r.headers@.len() == 2,
            r.headers@[0].0@ == "accessToken"@ && r.headers@[0].1@
                == self.access_token->Some_0@,
            r.headers@[1].0@ == "Content-Type"@ && r.headers@[1].1@ == "application/json"@,
            r.body matches Some(b) && b@ == "{\"Text_EstimationsRequired_YN\" : \"Y\"}"@,
    {
        let mut url = String::from_str("https://openapi.emtmadrid.es/v1/transport/busemtmad/stops/");
        url.append(stop_id);
        url.append("/arrives/");
        let mut headers: Vec<(String, String)> = Vec::new();
        let token = match &self.access_token {
            Some(t) => t.clone(),
            None => String::new(),
        };
        headers.push((String::from_str("accessToken"), token));
        headers.push((String::from_str("Content-Type"), String::from_str("application/json")));
        HttpRequestPlan {
            url,
            headers,
            body: Some(String::from_str("{\"Text_EstimationsRequired_YN\" : \"Y\"}")),
        }
    }

    /// Interprets an arrivals response body for the given stop: the arrivals
    /// of the array at `data[0].Arrive`, in order, each stamped with the
    /// stop id; `Parse` when the body is not JSON, `Missing` when the array
    /// or any field of one arrival is absent.
    pub fn get_arrival_times(&self, stop_id: &str, response_body: &[u8]) -> (r: Result<
        Vec<ArrivalTime>,
        FetchError,
    >)
        ensures
            match arrive_doc_of(response_body@) {
                ArriveDoc::Invalid => r == Err::<Vec<ArrivalTime>, FetchError>(FetchError::Parse),
                ArriveDoc::MissingArrive => r == Err::<Vec<ArrivalTime>, FetchError>(
                    FetchError::Missing,
                ),
                ArriveDoc::Entries(es) => if all_complete(es) {
                    &&& r matches Ok(v)
                    &&& v@.len() == es.len()
                    &&& forall|i: int|
                        0 <= i < es.len() ==> arrival_matches(#[trigger] v@[i], es[i], stop_id@)
                } else {
                    r == Err::<Vec<ArrivalTime>, FetchError>(FetchError::Missing)
                },
            },
    {
        let mut entries = match extract_arrive_entries(response_body) {
            Ok(entries) => entries,
            Err(e) => {
                return Err(e);
            },
        };
        let ghost es = entries@.map_values(|e: RawArrival| e@);
        let total = entries.len();
        let mut out: Vec<ArrivalTime> = Vec::new();
        let mut k: usize = 0;
        while entries.len() > 0
            invariant
                arrive_doc_of(response_body@) == ArriveDoc::Entries(es),
                es.len() == total,
                es.len() == k + entries@.len(),
                forall|i: int|
                    0 <= i < entries@.len() ==> es[k + i] == #[trigger] entries@[i]@,
                out@.len() == k,
                forall|i: int|
                    0 <= i < k ==> arrival_matches(#[trigger] out@[i], es[i], stop_id@),
                forall|i: int| 0 <= i < k ==> raw_complete(#[trigger] es[i]),
            decreases entries@.len(),
        {
            let e = entries.remove(0);
            let ghost ev = e@;
            proof {
                assert(ev == es[k as int]);
                assert(forall|i: int|
                    0 <= i < entries@.len() ==> es[k + 1 + i] == #[trigger] entries@[i]@);
            }
            let (line, destination, secs) = match (e.line, e.destination, e.seconds) {
                (Some(l), Some(d), Some(s)) => (l, d, s),
                _ => {
                    proof {
                        assert(!raw_complete(es[k as int]));
                        assert(!all_complete(es));
                    }
                    return Err(FetchError::Missing);
                },
            };
            out.push(
                ArrivalTime {
                    stop_id: String::from_str(stop_id),
                    line,
                    destination,
                    seconds_until_arrival: secs,
                },
            );
            k = k + 1;
        }
        Ok(out)
    }
}

} // verus!
