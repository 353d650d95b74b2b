use vstd::prelude::*;

verus! {

/// A JSON document as `serde_json` holds it; the library carries such values
/// through without reading them.
#[verifier::external_type_specification]
#[verifier::external_body]
pub struct ExValue(serde_json::Value);

/// One of the six coordinates of a request.
#[derive(Clone, Copy, PartialEq, Eq, Structural, Debug)]
pub enum Coordinate {
    X1,
    Y1,
    Z1,
    X2,
    Y2,
    Z2,
}

/// What stands in one field of a JSON object that this service sends: a
/// coordinate of the request, verbatim; the number that the call made at the
/// given step answered; or a fixed text.
#[derive(Clone, Copy, PartialEq, Eq, Debug)]
pub enum Cell {
    Coordinate(Coordinate),
    Answer(usize),
    Text(&'static str),
}

/// A field of a JSON object: its key and what stands there.
#[derive(Clone, Copy, PartialEq, Eq, Debug)]
pub struct Entry {
    pub key: &'static str,
    pub cell: Cell,
}

/// The body of a reply: an object laid out by this service, or the body that
/// a dependency sent, passed on unchanged.
pub enum Body {
    Fields(Vec<Entry>),
    Forwarded(serde_json::Value),
}

/// A reply to the caller of `POST /`: an HTTP status and a JSON body.
pub struct Reply {
    pub status: u16,
    pub body: Body,
}

pub enum BodyView {
    Fields(Seq<Entry>),
    Forwarded(serde_json::Value),
}

pub struct ReplyView {
    pub status: u16,
    pub body: BodyView,
}

impl View for Body {
    type V = BodyView;

    open spec fn view(&self) -> BodyView {
        match self {
            Body::Fields(fields) => BodyView::Fields(fields@),
            Body::Forwarded(value) => BodyView::Forwarded(*value),
        }
    }
}

impl View for Reply {
    type V = ReplyView;

    open spec fn view(&self) -> ReplyView {
        ReplyView { status: self.status, body: self.body@ }
    }
}

pub open spec fn entry(key: &'static str, cell: Cell) -> Entry {
    Entry { key, cell }
}

/// The body of an error that names the dependency at fault.
pub open spec fn error_fields(error: &'static str, dependency: &'static str) -> Seq<Entry> {
    seq![entry("error", Cell::Text(error)), entry("dependency", Cell::Text(dependency))]
}

/// `503`: the dependency could not be reached or answered unexpectedly.
pub open spec fn degraded_reply(dependency: &'static str) -> ReplyView {
    ReplyView {
        status: 503,
        body: BodyView::Fields(error_fields("dependency unavailable", dependency)),
    }
}

/// `500`: the dependency answered `200` without a numeric `result`.
pub open spec fn malformed_reply(dependency: &'static str) -> ReplyView {
    ReplyView {
        status: 500,
        body: BodyView::Fields(error_fields("dependency returned a malformed result", dependency)),
    }
}

/// Whether `status` is a code that HTTP can carry (three digits).
pub open spec fn valid_status(status: u16) -> bool {
    100 <= status && status <= 999
}

/// A dependency's own answer passed on: its status where HTTP can carry it,
/// `502` otherwise, and its body unchanged.
pub open spec fn forwarded_reply(status: u16, body: serde_json::Value) -> ReplyView {
    ReplyView {
        status: if valid_status(status) { status } else { 502 },
        body: BodyView::Forwarded(body),
    }
}

/// The fields of a successful reply: the six coordinates echoed, then the result.
pub open spec fn distance_fields(result: Cell) -> Seq<Entry> {
    seq![
        entry("x1", Cell::Coordinate(Coordinate::X1)),
        entry("y1", Cell::Coordinate(Coordinate::Y1)),
        entry("z1", Cell::Coordinate(Coordinate::Z1)),
        entry("x2", Cell::Coordinate(Coordinate::X2)),
        entry("y2", Cell::Coordinate(Coordinate::Y2)),
        entry("z2", Cell::Coordinate(Coordinate::Z2)),
        entry("result", result),
    ]
}

/// The key under which a coordinate travels in JSON: `x1` for the first
/// point's x, and so on.
pub open spec fn coordinate_key(c: Coordinate) -> &'static str {
    match c {
        Coordinate::X1 => "x1",
        Coordinate::Y1 => "y1",
        Coordinate::Z1 => "z1",
        Coordinate::X2 => "x2",
        Coordinate::Y2 => "y2",
        Coordinate::Z2 => "z2",
    }
}

/// The seven keys of a successful reply are pairwise different.
pub proof fn lemma_reply_keys_distinct()
    ensures
        forall|c: Coordinate, d: Coordinate| c != d ==> coordinate_key(c) != coordinate_key(d),
        forall|c: Coordinate| coordinate_key(c) != "result",
{
    reveal_strlit("x1");
    reveal_strlit("y1");
    reveal_strlit("z1");
    reveal_strlit("x2");
    reveal_strlit("y2");
    reveal_strlit("z2");
    reveal_strlit("result");
    assert forall|c: Coordinate, d: Coordinate| c != d implies coordinate_key(c) != coordinate_key(d) by {
        let a = coordinate_key(c);
        let b = coordinate_key(d);
        assert(a@[0] != b@[0] || a@[1] != b@[1]);
    }
    assert forall|c: Coordinate| coordinate_key(c) != "result" by {
        assert(coordinate_key(c)@.len() != "result"@.len());
    }
}

/// A forwarded answer keeps the dependency's status when it has three digits
/// (100 to 999), becomes `502` otherwise, and always keeps the body.
pub proof fn lemma_forward_status(status: u16, body: serde_json::Value)
    ensures
        100 <= status <= 999 ==> forwarded_reply(status, body).status == status,
        !(100 <= status <= 999) ==> forwarded_reply(status, body).status == 502,
        forwarded_reply(status, body).body == BodyView::Forwarded(body),
{
}

/// `200`: the coordinates echoed and the result.
pub open spec fn distance_reply(result: Cell) -> ReplyView {
    ReplyView { status: 200, body: BodyView::Fields(distance_fields(result)) }
}

/// Whether `http` accepts `status` as a status code.
///
/// Calls `axum::http::StatusCode::from_u16`, which, as its documentation and
/// source say, succeeds exactly when the number is at least 100 and below 1000.
#[verifier::external_body]
fn status_accepted(status: u16) -> (accepted: bool)
    ensures
        accepted == valid_status(status),
{
    axum::http::StatusCode::from_u16(status).is_ok()
}

fn error_body(error: &'static str, dependency: &'static str) -> (fields: Vec<Entry>)
    ensures
        fields@ == error_fields(error, dependency),
{
    let mut fields: Vec<Entry> = Vec::new();
    fields.push(Entry { key: "error", cell: Cell::Text(error) });
    fields.push(Entry { key: "dependency", cell: Cell::Text(dependency) });
    fields
}

/// The reply for a dependency that is unavailable.
pub fn degraded(dependency: &'static str) -> (reply: Reply)
    ensures
        reply@ == degraded_reply(dependency),
{
    Reply { status: 503, body: Body::Fields(error_body("dependency unavailable", dependency)) }
}

/// The reply for a dependency that answered `200` without a numeric `result`:
/// a contract violation that cannot be recovered from.
pub fn malformed(dependency: &'static str) -> (reply: Reply)
    ensures
        reply@ == malformed_reply(dependency),
{
    Reply {
        status: 500,
        body: Body::Fields(error_body("dependency returned a malformed result", dependency)),
    }
}

/// A dependency's answer passed on to the caller.
pub fn forward(status: u16, body: serde_json::Value) -> (reply: Reply)
    ensures
        reply@ == forwarded_reply(status, body),
{
    let code = if status_accepted(status) {
        status
    } else {
        502
    };
    Reply { status: code, body: Body::Forwarded(body) }
}

/// The successful reply: the coordinates echoed and `result`.
pub fn ok(result: Cell) -> (reply: Reply)
    ensures
        reply@ == distance_reply(result),
{
    let mut fields: Vec<Entry> = Vec::new();
    fields.push(Entry { key: "x1", cell: Cell::Coordinate(Coordinate::X1) });
    fields.push(Entry { key: "y1", cell: Cell::Coordinate(Coordinate::Y1) });
    fields.push(Entry { key: "z1", cell: Cell::Coordinate(Coordinate::Z1) });
    fields.push(Entry { key: "x2", cell: Cell::Coordinate(Coordinate::X2) });
    fields.push(Entry { key: "y2", cell: Cell::Coordinate(Coordinate::Y2) });
    fields.push(Entry { key: "z2", cell: Cell::Coordinate(Coordinate::Z2) });
    fields.push(Entry { key: "result", cell: result });
    assert(fields@ =~= distance_fields(result));
    Reply { status: 200, body: Body::Fields(fields) }
}

} // verus!
