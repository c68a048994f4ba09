//! The loopback capture server's rules: the redirect URI it announces, how it
//! reads the authorization code out of the one request it serves, and that it
//! serves no second one.

use vstd::prelude::*;
use crate::text::{text_of, pairs_text};

verus! {

/// Seconds after which the listener gives up waiting for its one request.
pub const CAPTURE_DEADLINE_SECONDS: u64 = 300;

/// The name of the query parameter that carries the authorization code.
pub open spec fn code_key() -> Seq<char> {
    "code"@
}

/// The decimal digit `d` as a character.
pub open spec fn digit_char(d: nat) -> char {
    if d == 0 {
        '0'
    } else if d == 1 {
        '1'
    } else if d == 2 {
        '2'
    } else if d == 3 {
        '3'
    } else if d == 4 {
        '4'
    } else if d == 5 {
        '5'
    } else if d == 6 {
        '6'
    } else if d == 7 {
        '7'
    } else if d == 8 {
        '8'
    } else {
        '9'
    }
}

/// The decimal numeral of `n`, without leading zeros.
pub open spec fn decimal_text(n: nat) -> Seq<char>
    decreases n,
{
    if n < 10 {
        seq![digit_char(n)]
    } else {
        decimal_text(n / 10) + seq![digit_char(n % 10)]
    }
}

/// The redirect URI of a listener bound to `port`.
pub open spec fn redirect_uri_of(port: nat) -> Seq<char> {
    "http://localhost:"@ + decimal_text(port)
}

/// One decimal digit as text.
fn digit_text(d: u16) -> (text: &'static str)
    requires
        d < 10,
    ensures
        text@ == seq![digit_char(d as nat)],
{
    proof {
        reveal_strlit("0");
        reveal_strlit("1");
        reveal_strlit("2");
        reveal_strlit("3");
        reveal_strlit("4");
        reveal_strlit("5");
        reveal_strlit("6");
        reveal_strlit("7");
        reveal_strlit("8");
        reveal_strlit("9");
    }
    let text: &'static str = if d == 0 {
        "0"
    } else if d == 1 {
        "1"
    } else if d == 2 {
        "2"
    } else if d == 3 {
        "3"
    } else if d == 4 {
        "4"
    } else if d == 5 {
        "5"
    } else if d == 6 {
        "6"
    } else if d == 7 {
        "7"
    } else if d == 8 {
        "8"
    } else {
        "9"
    };
    assert(text@ =~= seq![digit_char(d as nat)]);
    text
}

/// Writes a port number in decimal.
pub fn decimal(n: u16) -> (text: String)
    ensures
        text@ == decimal_text(n as nat),
    decreases n,
{
    if n < 10 {
        String::from_str(digit_text(n))
    } else {
        let head = decimal(n / 10);
        head.concat(digit_text(n % 10))
    }
}

/// The redirect URI that the listener on `port` announces.
pub fn redirect_uri(port: u16) -> (uri: String)
    ensures
        uri@ == redirect_uri_of(port as nat),
{
    let number = decimal(port);
    String::from_str("http://localhost:").concat(number.as_str())
}

/// The text of the page sent to the browser once the code has been received.
pub open spec fn success_page_text() -> Seq<char> {
    "<html><body><h1>Authentication successful!</h1><p>You can close this window.</p></body></html>"@
}

/// The page sent to the browser once the code has been received.
pub fn success_page() -> (html: &'static str)
    ensures
        html@ == success_page_text(),
{
    "<html><body><h1>Authentication successful!</h1><p>You can close this window.</p></body></html>"
}

/// The decoded name/value pairs of the query of an absolute URL, or nothing
/// where the text is no URL.
pub uninterp spec fn url_query_pairs(address: Seq<char>) -> Option<Seq<(Seq<char>, Seq<char>)>>;

/// Parses with `url`'s `Url::parse` and walks `Url::query_pairs`, which
/// percent-decodes each name and value; `None` where the parse fails.
#[verifier::external_body]
fn query_pairs(address: &str) -> (pairs: Option<Vec<(String, String)>>)
    ensures
        match pairs {
            Some(p) => url_query_pairs(address@) == Some(pairs_text(p@)),
            None => url_query_pairs(address@) is None,
        },
{
    match url::Url::parse(address) {
        Ok(u) => Some(u.query_pairs().map(|(k, v)| (k.into_owned(), v.into_owned())).collect()),
        Err(_) => None,
    }
}

/// The value of the first pair at or after `from` whose name is `code`.
pub open spec fn code_from(pairs: Seq<(Seq<char>, Seq<char>)>, from: nat) -> Option<Seq<char>>
    decreases pairs.len() - from,
{
    if from >= pairs.len() {
        None
    } else if pairs[from as int].0 == code_key() {
        Some(pairs[from as int].1)
    } else {
        code_from(pairs, from + 1)
    }
}

/// The authorization code among the pairs of a query: the value of the first
/// pair named `code`.
pub open spec fn first_code(pairs: Seq<(Seq<char>, Seq<char>)>) -> Option<Seq<char>> {
    code_from(pairs, 0)
}

/// Finds the authorization code among the pairs of a query.
pub fn find_code(pairs: &Vec<(String, String)>) -> (code: Option<String>)
    ensures
        text_of(code) == first_code(pairs_text(pairs@)),
{
    let key = String::from_str("code");
    let mut i: usize = 0;
    while i < pairs.len()
        invariant
            i <= pairs@.len(),
            key@ == code_key(),
            first_code(pairs_text(pairs@)) == code_from(pairs_text(pairs@), i as nat),
        decreases pairs@.len() - i,
    {
        if pairs[i].0 == key {
            return Some(pairs[i].1.clone());
        }
        i += 1;
    }
    None
}

/// The listener is open for its one request, or closed for good.
#[derive(Clone, Copy, Debug, PartialEq, Eq, Structural)]
pub enum CaptureState {
    Listening,
    Closed,
}

/// The code that a request for `target` delivers to the waiting login.
pub open spec fn delivered(state: CaptureState, target: Seq<char>) -> Option<Seq<char>> {
    match state {
        CaptureState::Closed => None,
        CaptureState::Listening => match url_query_pairs("http://localhost"@ + target) {
            Some(pairs) => first_code(pairs),
            None => None,
        },
    }
}

/// Serving one request: the listener is closed afterwards, whatever it was
/// asked, and hands over what [`delivered`] says.
pub open spec fn serve(state: CaptureState, target: Seq<char>) -> (CaptureState, Option<Seq<char>>) {
    (CaptureState::Closed, delivered(state, target))
}

/// Serves the request for `target` (path and query, as on the request line).
/// A listening server delivers the code of the query, if there is one; with
/// or without a code it is closed afterwards. A closed server delivers nothing.
pub fn serve_request(state: CaptureState, target: &str) -> (r: (CaptureState, Option<String>))
    ensures
        r.0 == serve(state, target@).0,
        text_of(r.1) == serve(state, target@).1,
{
    match state {
        CaptureState::Closed => (CaptureState::Closed, None),
        CaptureState::Listening => {
            let address = String::from_str("http://localhost").concat(target);
            let code = match query_pairs(address.as_str()) {
                Some(pairs) => find_code(&pairs),
                None => None,
            };
            (CaptureState::Closed, code)
        },
    }
}

/// The answer to a served request: the success page exactly if a code was
/// delivered; otherwise the request goes unanswered.
pub fn response_for(code: &Option<String>) -> (page: Option<&'static str>)
    ensures
        code is Some <==> page is Some,
        page matches Some(html) ==> html@ == success_page_text(),
{
    match code {
        Some(_) => Some(success_page()),
        None => None,
    }
}

/// The deadline closes the listener without delivering anything.
pub fn deadline_elapsed(state: CaptureState) -> (next: CaptureState)
    ensures
        next == CaptureState::Closed,
{
    CaptureState::Closed
}

/// The state of a listener after the first `n` of a series of requests.
pub open spec fn state_after(state: CaptureState, targets: Seq<Seq<char>>, n: nat) -> CaptureState
    decreases n,
{
    if n == 0 || n > targets.len() {
        state
    } else {
        serve(state_after(state, targets, (n - 1) as nat), targets[n - 1]).0
    }
}

/// What request number `i` of a series delivers.
pub open spec fn delivery_at(state: CaptureState, targets: Seq<Seq<char>>, i: nat) -> Option<Seq<char>> {
    serve(state_after(state, targets, i), targets[i as int]).1
}

/// Of a series of requests only the first can deliver a code, and it delivers
/// the code of its own query: a code is handed over at most once, and no
/// request is accepted after the first.
pub proof fn only_first_request_delivers(targets: Seq<Seq<char>>, i: nat)
    requires
        i < targets.len(),
    ensures
        i == 0 ==> delivery_at(CaptureState::Listening, targets, i) == delivered(
            CaptureState::Listening,
            targets[0],
        ),
        i > 0 ==> delivery_at(CaptureState::Listening, targets, i) is None,
        state_after(CaptureState::Listening, targets, i + 1) == CaptureState::Closed,
{
}

/// The code delivered is the value of the first pair named `code`, whatever
/// stands before or after it in the query.
pub proof fn first_code_is_first(pairs: Seq<(Seq<char>, Seq<char>)>, at: nat, from: nat)
    requires
        from <= at < pairs.len(),
        pairs[at as int].0 == code_key(),
        forall|j: int| from <= j < at ==> pairs[j].0 != code_key(),
    ensures
        code_from(pairs, from) == Some(pairs[at as int].1),
    decreases at - from,
{
    if from < at {
        first_code_is_first(pairs, at, from + 1);
    }
}

/// A query without a pair named `code` delivers nothing.
pub proof fn no_code_no_delivery(pairs: Seq<(Seq<char>, Seq<char>)>, from: nat)
    requires
        forall|j: int| from <= j < pairs.len() ==> pairs[j].0 != code_key(),
    ensures
        code_from(pairs, from) is None,
    decreases pairs.len() - from,
{
    if from < pairs.len() {
        no_code_no_delivery(pairs, from + 1);
    }
}

} // verus!
