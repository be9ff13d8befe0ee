//! The decisions of the HTTP control listener: which route a request takes,
//! and what a control request sends to the engine and answers.
use vstd::prelude::*;
use crate::osc::{Atom, AtomView, address_atoms, address_to_atoms, atoms_view};

verus! {

/// Where a request goes.
#[derive(PartialEq, Eq, Structural, Clone, Copy, Debug)]
pub enum Route {
    /// `GET /` and `GET /health`: a liveness probe.
    Health,
    /// `POST /pd/osc`: a control message for the engine.
    PdMessage,
    NotFound,
}

/// The body of a control request, once parsed.
pub struct PdOSCMessageBody<N> {
    pub address: String,
    pub number_value: Option<N>,
    pub string_value: Option<String>,
}

/// A control request that carried neither a number nor a string value.
#[derive(PartialEq, Eq, Structural, Clone, Copy, Debug)]
pub struct OSCMessageError;

impl OSCMessageError {
    pub fn message(&self) -> (r: String)
        ensures
            r@ == error_text(),
    {
        "No value given for OSC message".to_owned()
    }
}

pub open spec fn error_text() -> Seq<char> {
    "No value given for OSC message"@
}

pub open spec fn bad_body_text() -> Seq<char> {
    "Invalid request body"@
}

/// What an HTTP reply holds: its status and its text body.
pub struct HttpReply {
    pub status: u16,
    pub body: String,
}

/// The outcome of a control request: the reply, and the engine message to
/// send when the request was valid.
pub struct PdRequestOutcome<N> {
    pub reply: HttpReply,
    pub message: Option<Vec<Atom<N>>>,
}

pub open spec fn route_of(method: Seq<char>, url: Seq<char>) -> Route {
    if method == "GET"@ && (url == "/"@ || url == "/health"@) {
        Route::Health
    } else if method == "POST"@ && url == "/pd/osc"@ {
        Route::PdMessage
    } else {
        Route::NotFound
    }
}

/// The value that a control request appends: the number when there is one,
/// else the string, else none.
pub open spec fn request_value<N>(body: PdOSCMessageBody<N>) -> Option<AtomView<N>> {
    match body.number_value {
        Some(n) => Some(AtomView::Float(n)),
        None => match body.string_value {
            Some(s) => Some(AtomView::Symbol(s@)),
            None => None,
        },
    }
}

/// A request body that parsed and carries a number or a string value.
pub open spec fn accepted<N>(body: Option<PdOSCMessageBody<N>>) -> bool {
    match body {
        Some(b) => request_value(b) is Some,
        None => false,
    }
}

/// Picks the route of a request from its method and its URL path.
pub fn route(method: &String, url: &String) -> (r: Route)
    ensures
        r == route_of(method@, url@),
{
    let get = "GET".to_owned();
    let post = "POST".to_owned();
    let root = "/".to_owned();
    let health = "/health".to_owned();
    let pd = "/pd/osc".to_owned();
    if *method == get && (*url == root || *url == health) {
        Route::Health
    } else if *method == post && *url == pd {
        Route::PdMessage
    } else {
        Route::NotFound
    }
}

/// The engine message of a control request: the symbols of its address (the
/// first segment stripped), then its number value, or its string value when
/// it has no number.  With neither, the request is refused.
pub fn pd_message_list<N: Copy>(body: &PdOSCMessageBody<N>) -> (r: Result<Vec<Atom<N>>, OSCMessageError>)
    ensures
        request_value(*body) is None <==> r is Err,
        r matches Ok(v) ==> atoms_view(v@) == address_atoms::<N>(body.address@).push(
            request_value(*body)->Some_0,
        ),
{
    let value = match body.number_value {
        Some(n) => Atom::Float(n),
        None => match &body.string_value {
            Some(s) => Atom::Symbol(s.clone()),
            None => {
                return Err(OSCMessageError);
            },
        },
    };
    let mut list = address_to_atoms(&body.address);
    let ghost before = list@;
    list.push(value);
    assert(atoms_view(list@) =~= atoms_view(before).push(value@));
    Ok(list)
}

/// Answers a control request.  `None` stands for a body that did not parse.
/// A body that parsed and carries a value gets 200 and "OK", and its engine
/// message is handed back to be sent; any other gets 400 and nothing is sent.
pub fn handle_pd_message_request<N: Copy>(body: Option<PdOSCMessageBody<N>>) -> (r: PdRequestOutcome<N>)
    ensures
        (r.reply.status == 200) <==> accepted(body),
        r.reply.status == 200 || r.reply.status == 400,
        r.reply.status == 200 ==> r.reply.body@ == "OK"@,
        r.reply.status == 400 ==> r.message is None,
        body is None ==> r.reply.body@ == bad_body_text(),
        body matches Some(b) && request_value(b) is None ==> r.reply.body@ == error_text(),
        accepted(body) ==> (r.message matches Some(v) && atoms_view(v@) == address_atoms::<N>(
            body->Some_0.address@,
        ).push(request_value(body->Some_0)->Some_0)),
{
    match body {
        None => PdRequestOutcome {
            reply: HttpReply { status: 400, body: "Invalid request body".to_owned() },
            message: None,
        },
        Some(b) => match pd_message_list(&b) {
            Ok(list) => PdRequestOutcome {
                reply: HttpReply { status: 200, body: "OK".to_owned() },
                message: Some(list),
            },
            Err(e) => PdRequestOutcome {
                reply: HttpReply { status: 400, body: e.message() },
                message: None,
            },
        },
    }
}

} // verus!
