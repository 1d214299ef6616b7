//! The request dispatcher: the URL and cookie of every endpoint call, the
//! ordered form parameters some calls carry, and the classification of the
//! answer into a body or a typed error.
use vstd::prelude::*;
use vstd::string::*;
use crate::error::{Error, ErrorType, message_of};
use crate::text::{concat2, concat3};

verus! {

/// Every endpoint path is below this prefix of the authority.
pub const API_PREFIX: &'static str = "/api/v2";

/// The path of the logout endpoint, below the API prefix.
pub const LOGOUT_PATH: &'static str = "/auth/logout";

/// Whether an HTTP status code is in the 2xx range.
pub open spec fn success_status(status: u16) -> bool {
    200 <= status < 300
}

/// Whether `status` is in the 2xx range.
pub fn is_success(status: u16) -> (r: bool)
    ensures
        r == success_status(status),
{
    200 <= status && status < 300
}

/// `s` without the `/` characters at its end.
pub open spec fn trim_trailing_slashes(s: Seq<char>) -> Seq<char>
    decreases s.len(),
{
    if s.len() > 0 && s.last() == '/' {
        trim_trailing_slashes(s.drop_last())
    } else {
        s
    }
}

/// The authority with the `/` characters at its end removed, so that paths
/// can be appended to it.
pub fn trim_authority(authority: &str) -> (r: String)
    ensures
        r@ == trim_trailing_slashes(authority@),
{
    let mut end: usize = authority.unicode_len();
    assert(authority@.subrange(0, end as int) =~= authority@);
    while end > 0 && authority.get_char(end - 1) == '/'
        invariant
            end <= authority@.len(),
            trim_trailing_slashes(authority@) == trim_trailing_slashes(
                authority@.subrange(0, end as int),
            ),
        decreases end,
    {
        assert(authority@.subrange(0, end as int).drop_last() =~= authority@.subrange(
            0,
            end - 1,
        ));
        end = end - 1;
    }
    String::from_str(authority.substring_char(0, end))
}

/// The URL of the endpoint at `path` on `authority`.
pub fn endpoint_url(authority: &str, path: &str) -> (r: String)
    ensures
        r@ == authority@ + API_PREFIX@ + path@,
{
    concat3(authority, API_PREFIX, path)
}

/// The value of the cookie header that presents the session token.
pub fn cookie_header(token: &str) -> (r: String)
    ensures
        r@ == "SID="@ + token@,
{
    concat2("SID=", token)
}

/// Whether the keys of `s` are pairwise distinct.
pub open spec fn keys_unique(s: Seq<(Seq<char>, Seq<char>)>) -> bool {
    forall|i: int, j: int|
        0 <= i < s.len() && 0 <= j < s.len() && i != j ==> #[trigger] s[i].0 != #[trigger] s[j].0
}

/// Whether `s` has an entry with key `k`.
pub open spec fn has_key(s: Seq<(Seq<char>, Seq<char>)>, k: Seq<char>) -> bool {
    exists|i: int| 0 <= i < s.len() && #[trigger] s[i].0 == k
}

/// The parameters of a form call: an ordered mapping from keys to values,
/// each key present at most once, kept in the order of first insertion.
#[derive(Debug, Clone)]
pub struct FormParams {
    pairs: Vec<(String, String)>,
}

impl View for FormParams {
    type V = Seq<(Seq<char>, Seq<char>)>;

    closed spec fn view(&self) -> Seq<(Seq<char>, Seq<char>)> {
        Seq::new(self.pairs@.len(), |i: int| (self.pairs@[i].0@, self.pairs@[i].1@))
    }
}

impl FormParams {
    /// The form's invariant: its keys are pairwise distinct.
    pub open spec fn wf(&self) -> bool {
        keys_unique(self@)
    }

    /// An empty form.
    pub fn new() -> (r: FormParams)
        ensures
            r.wf(),
            r@ == Seq::<(Seq<char>, Seq<char>)>::empty(),
    {
        let r = FormParams { pairs: Vec::new() };
        assert(r@ =~= Seq::<(Seq<char>, Seq<char>)>::empty());
        r
    }

    /// The number of entries.
    pub fn len(&self) -> (r: usize)
        ensures
            r == self@.len(),
    {
        self.pairs.len()
    }

    /// Sets `key` to `value`. An existing entry keeps its place and takes the
    /// new value; a new key is appended at the end.
    pub fn insert(&mut self, key: String, value: String)
        requires
            old(self).wf(),
        ensures
            final(self).wf(),
            has_key(old(self)@, key@) ==> forall|i: int|
                0 <= i < old(self)@.len() && #[trigger] old(self)@[i].0 == key@ ==> final(self)@
                    == old(self)@.update(i, (key@, value@)),
            !has_key(old(self)@, key@) ==> final(self)@ == old(self)@.push((key@, value@)),
    {
        let n: usize = self.pairs.len();
        let mut i: usize = 0;
        while i < n
            invariant
                n == self.pairs@.len(),
                *self == *old(self),
                self.wf(),
                i <= n,
                forall|j: int| 0 <= j < i ==> #[trigger] self@[j].0 != key@,
            decreases n - i,
        {
            if self.pairs[i].0 == key {
                let ghost before = self@;
                assert(before[i as int].0 == key@);
                assert(keys_unique(before));
                self.pairs.set(i, (key, value));
                proof {
                    assert(self@ =~= before.update(i as int, (key@, value@)));
                    assert forall|j: int|
                        0 <= j < before.len() && #[trigger] before[j].0 == key@ implies j
                        == i by {
                        if j != i {
                            assert(before[j].0 != before[i as int].0);
                        }
                    }
                    assert forall|a: int, b: int|
                        0 <= a < self@.len() && 0 <= b < self@.len() && a != b implies #[trigger] self@[a].0
                        != #[trigger] self@[b].0 by {
                        if a != i && b != i {
                            assert(before[a].0 != before[b].0);
                        } else if a == i {
                            assert(before[b].0 != before[i as int].0);
                        } else {
                            assert(before[a].0 != before[i as int].0);
                        }
                    }
                }
                return;
            }
            i = i + 1;
        }
        let ghost before = self@;
        self.pairs.push((key, value));
        proof {
            assert(self@ =~= before.push((key@, value@)));
            assert(!has_key(before, key@));
        }
    }

    /// The entries, in order.
    pub fn pairs(&self) -> (r: &Vec<(String, String)>)
        ensures
            r@.len() == self@.len(),
            forall|i: int|
                0 <= i < r@.len() ==> (#[trigger] r@[i]).0@ == self@[i].0 && r@[i].1@
                    == self@[i].1,
    {
        &self.pairs
    }
}

/// The three shapes of an endpoint call.
#[derive(Debug, Clone, Copy, PartialEq, Eq, Structural)]
pub enum CallShape {
    /// No body.
    Bare,
    /// A form body.
    Form,
    /// A form body addressed by a torrent hash: a 404 answer means that hash
    /// is unknown.
    Keyed,
}

/// What the transport reports of an endpoint answer: its status code and body.
pub struct Response {
    pub status: u16,
    pub body: String,
}

/// The description that a failed call of operation `op` carries.
pub open spec fn failure_description(shape: CallShape, op: Seq<char>) -> Seq<char> {
    match shape {
        CallShape::Form => "function name: "@ + op,
        _ => "something went wrong. function name: "@ + op,
    }
}

/// Classifies the outcome of one endpoint call of operation `op_name`.
///
/// A transport failure (`Err`, with its description) is a `ReqwestError`. A
/// 2xx answer gives its body, whatever it holds. A 404 answer to a keyed call
/// is `TorrentHashNotFound`. Any other answer is a `MiscError` naming the
/// operation and carrying the status code.
pub fn classify_response(shape: CallShape, op_name: &str, outcome: Result<Response, String>) -> (r:
    Result<String, Error>)
    ensures
        match outcome {
            Err(msg) => r matches Err(e) && e.err_type == ErrorType::ReqwestError(msg)
                && e.code is None,
            Ok(resp) => if success_status(resp.status) {
                r matches Ok(body) && body@ == resp.body@
            } else if shape == CallShape::Keyed && resp.status == 404 {
                r matches Err(e) && e.err_type == ErrorType::TorrentHashNotFound && e.code
                    == Some(404u16)
            } else {
                r matches Err(e) && e.err_type matches ErrorType::MiscError(m) && m@
                    == failure_description(shape, op_name@) && e.code == Some(resp.status)
            },
        },
        r matches Err(e) ==> e.message@ == message_of(e.err_type),
{
    match outcome {
        Err(msg) => Err(Error::build(ErrorType::ReqwestError(msg), None)),
        Ok(resp) => {
            if is_success(resp.status) {
                Ok(resp.body)
            } else if shape == CallShape::Keyed && resp.status == 404 {
                Err(Error::build(ErrorType::TorrentHashNotFound, Some(404)))
            } else {
                let description = match shape {
                    CallShape::Form => concat2("function name: ", op_name),
                    _ => concat2("something went wrong. function name: ", op_name),
                };
                Err(Error::build(ErrorType::MiscError(description), Some(resp.status)))
            }
        },
    }
}

/// Classifies the outcome of the logout call: `Ok` on a 2xx answer, and
/// otherwise the error that a bare call named `logout` gives.
pub fn classify_logout(outcome: Result<Response, String>) -> (r: Result<(), Error>)
    ensures
        r is Ok <==> (outcome matches Ok(resp) && success_status(resp.status)),
        match outcome {
            Err(msg) => r matches Err(e) && e.err_type == ErrorType::ReqwestError(msg)
                && e.code is None,
            Ok(resp) => !success_status(resp.status) ==> (r matches Err(e) && e.err_type matches ErrorType::MiscError(m)
                && m@ == failure_description(CallShape::Bare, "logout"@) && e.code == Some(
                resp.status,
            )),
        },
        r matches Err(e) ==> e.message@ == message_of(e.err_type),
{
    match classify_response(CallShape::Bare, "logout", outcome) {
        Ok(_) => Ok(()),
        Err(e) => Err(e),
    }
}

} // verus!
