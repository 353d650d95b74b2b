use serde_json::Value;
use srvcs_distance3d::apidoc::{ApiDoc, FieldKind, Method, EVALUATE_DESCRIPTION};
use srvcs_distance3d::identity::{index, Dependency, Deps, CONCERN, DEPENDS_ON, SERVICE};
use srvcs_distance3d::plan::{call_at, STEPS};
use srvcs_distance3d::reply::{degraded, forward, malformed, ok, Body, Cell, Coordinate, Entry, Reply};
use srvcs_distance3d::request::EvalRequest;
use srvcs_distance3d::run::{advance, settle, start, Answer, Step};

// --- A simulated run: the dependencies are played by functions here. ---

/// How a simulated dependency behaves.
#[derive(Clone)]
enum Mock {
    /// Computes its answer from the operands, as the real service does.
    Computing,
    /// Cannot be reached.
    Dead,
    /// Answers with a fixed status and body.
    Fixed(u16, Value),
}

fn parse(text: &str) -> Value {
    serde_json::from_str(text).unwrap()
}

fn request(text: &str) -> EvalRequest {
    let v = parse(text);
    EvalRequest {
        x1: v["x1"].clone(),
        y1: v["y1"].clone(),
        z1: v["z1"].clone(),
        x2: v["x2"].clone(),
        y2: v["y2"].clone(),
        z2: v["z2"].clone(),
    }
}

fn cell_value(cell: &Cell, req: &EvalRequest, answers: &[f64]) -> Value {
    match cell {
        Cell::Coordinate(c) => req.coordinate(*c).clone(),
        Cell::Answer(k) => Value::from(answers[*k]),
        Cell::Text(t) => Value::String(t.to_string()),
    }
}

fn object(fields: &[Entry], req: &EvalRequest, answers: &[f64]) -> Value {
    let mut map = serde_json::Map::new();
    for e in fields {
        map.insert(e.key.to_string(), cell_value(&e.cell, req, answers));
    }
    Value::Object(map)
}

fn render(reply: Reply, req: &EvalRequest, answers: &[f64]) -> (u16, Value) {
    let body = match reply.body {
        Body::Fields(fields) => object(&fields, req, answers),
        Body::Forwarded(v) => v,
    };
    (reply.status, body)
}

fn mock_for(dependency: Dependency, mocks: &[Mock; 4]) -> Mock {
    match dependency {
        Dependency::FloatSubtract => mocks[0].clone(),
        Dependency::FloatMultiply => mocks[1].clone(),
        Dependency::FloatAdd => mocks[2].clone(),
        Dependency::Sqrt => mocks[3].clone(),
    }
}

fn compute(dependency: Dependency, payload: &Value) -> f64 {
    let a = payload.get("a").and_then(Value::as_f64).unwrap_or(0.0);
    let b = payload.get("b").and_then(Value::as_f64).unwrap_or(0.0);
    let value = payload.get("value").and_then(Value::as_f64).unwrap_or(0.0);
    match dependency {
        Dependency::FloatSubtract => a - b,
        Dependency::FloatMultiply => a * b,
        Dependency::FloatAdd => a + b,
        Dependency::Sqrt => value.sqrt(),
    }
}

/// Runs an evaluation against simulated dependencies; returns the reply as
/// the caller would see it and the dependencies called, in order.
fn distance_run(mocks: [Mock; 4], req_text: &str) -> (u16, Value, Vec<Dependency>) {
    let req = request(req_text);
    let mut answers: Vec<f64> = Vec::new();
    let mut called: Vec<Dependency> = Vec::new();
    let mut step = start();
    loop {
        match step {
            Step::Respond(reply) => {
                let (status, body) = render(reply, &req, &answers);
                return (status, body, called);
            }
            Step::Ask(run, call) => {
                called.push(call.dependency);
                let payload = object(&call.payload, &req, &answers);
                let answer = match mock_for(call.dependency, &mocks) {
                    Mock::Dead => Answer::Unreachable,
                    Mock::Computing => {
                        let r = compute(call.dependency, &payload);
                        answers.push(r);
                        let mut m = serde_json::Map::new();
                        m.insert("result".to_string(), Value::from(r));
                        Answer::Replied { status: 200, body: Value::Object(m) }
                    }
                    Mock::Fixed(status, body) => {
                        let number = body.get("result").and_then(Value::as_f64);
                        if let Some(r) = number {
                            answers.push(r);
                        }
                        Answer::Replied { status, body }
                    }
                };
                step = advance(run, answer);
            }
        }
    }
}

fn computing() -> [Mock; 4] {
    [Mock::Computing, Mock::Computing, Mock::Computing, Mock::Computing]
}

fn result_f64(body: &Value) -> f64 {
    body["result"].as_f64().expect("result is a JSON number")
}

// --- Tests of the original, carried over. ---

#[test]
fn openapi_documents_routes() {
    let doc = ApiDoc::openapi();
    let root = doc.paths.paths.get("/").expect("path / present");
    assert!(root.get.is_some());
    assert!(root.post.is_some());
}

#[test]
fn index_reports_all_dependencies() {
    let info = index();
    assert_eq!(info.service, "srvcs-distance3d");
    assert_eq!(info.concern, "geometry: distance between two 3D points");
    assert_eq!(
        info.depends_on,
        vec![
            "srvcs-floatsubtract",
            "srvcs-floatmultiply",
            "srvcs-floatadd",
            "srvcs-sqrt"
        ]
    );
}

#[test]
fn distance_0_0_0_to_1_2_2_is_3() {
    let (status, body, _) =
        distance_run(computing(), r#"{ "x1": 0, "y1": 0, "z1": 0, "x2": 1, "y2": 2, "z2": 2 }"#);
    assert_eq!(status, 200);
    // sqrt(1 + 4 + 4) = sqrt(9) = 3.0
    assert!((result_f64(&body) - 3.0).abs() < 1e-9);
}

#[test]
fn distance_echoes_coordinates() {
    let (status, body, _) =
        distance_run(computing(), r#"{ "x1": 0, "y1": 0, "z1": 0, "x2": 1, "y2": 2, "z2": 2 }"#);
    assert_eq!(status, 200);
    assert_eq!(body["x1"], parse("0"));
    assert_eq!(body["y1"], parse("0"));
    assert_eq!(body["z1"], parse("0"));
    assert_eq!(body["x2"], parse("1"));
    assert_eq!(body["y2"], parse("2"));
    assert_eq!(body["z2"], parse("2"));
}

#[test]
fn distance_identical_points_is_zero() {
    let (status, body, _) =
        distance_run(computing(), r#"{ "x1": 3, "y1": -2, "z1": 7, "x2": 3, "y2": -2, "z2": 7 }"#);
    assert_eq!(status, 200);
    assert!((result_f64(&body) - 0.0).abs() < 1e-9);
}

#[test]
fn distance_axis_aligned_is_the_delta() {
    let (status, body, _) =
        distance_run(computing(), r#"{ "x1": 0, "y1": 0, "z1": 0, "x2": 0, "y2": 0, "z2": 5 }"#);
    assert_eq!(status, 200);
    assert!((result_f64(&body) - 5.0).abs() < 1e-9);
}

#[test]
fn distance_unit_diagonal_is_sqrt3() {
    let (status, body, _) =
        distance_run(computing(), r#"{ "x1": 0, "y1": 0, "z1": 0, "x2": 1, "y2": 1, "z2": 1 }"#);
    assert_eq!(status, 200);
    // sqrt(3)
    assert!((result_f64(&body) - 3.0_f64.sqrt()).abs() < 1e-9);
}

#[test]
fn distance_negative_and_fractional_coords() {
    let (status, body, _) = distance_run(
        computing(),
        r#"{ "x1": -1.5, "y1": 2.0, "z1": 0.5, "x2": 1.5, "y2": -2.0, "z2": -0.5 }"#,
    );
    assert_eq!(status, 200);
    // dx=3, dy=-4, dz=-1; sqrt(9 + 16 + 1) = sqrt(26)
    assert!((result_f64(&body) - 26.0_f64.sqrt()).abs() < 1e-9);
}

const POINTS: &str = r#"{ "x1": 0, "y1": 0, "z1": 0, "x2": 1, "y2": 2, "z2": 2 }"#;

#[test]
fn degrades_when_floatsubtract_unreachable() {
    let (status, body, _) =
        distance_run([Mock::Dead, Mock::Computing, Mock::Computing, Mock::Computing], POINTS);
    assert_eq!(status, 503);
    assert_eq!(body["dependency"], "srvcs-floatsubtract");
}

#[test]
fn degrades_when_floatmultiply_unreachable() {
    let (status, body, _) =
        distance_run([Mock::Computing, Mock::Dead, Mock::Computing, Mock::Computing], POINTS);
    assert_eq!(status, 503);
    assert_eq!(body["dependency"], "srvcs-floatmultiply");
}

#[test]
fn degrades_when_floatadd_unreachable() {
    let (status, body, _) =
        distance_run([Mock::Computing, Mock::Computing, Mock::Dead, Mock::Computing], POINTS);
    assert_eq!(status, 503);
    assert_eq!(body["dependency"], "srvcs-floatadd");
}

#[test]
fn degrades_when_sqrt_unreachable() {
    let (status, body, _) =
        distance_run([Mock::Computing, Mock::Computing, Mock::Computing, Mock::Dead], POINTS);
    assert_eq!(status, 503);
    assert_eq!(body["dependency"], "srvcs-sqrt");
}

#[test]
fn forwards_422_from_floatsubtract() {
    let rejecting = Mock::Fixed(422, parse(r#"{ "error": "value is not a number" }"#));
    let (status, body, _) = distance_run(
        [rejecting, Mock::Computing, Mock::Computing, Mock::Computing],
        r#"{ "x1": 0, "y1": 0, "z1": 0, "x2": "nope", "y2": 2, "z2": 2 }"#,
    );
    assert_eq!(status, 422);
    assert_eq!(body["error"], "value is not a number");
}

#[test]
fn forwards_422_from_sqrt() {
    let rejecting = Mock::Fixed(422, parse(r#"{ "error": "negative radicand" }"#));
    let (status, _, _) =
        distance_run([Mock::Computing, Mock::Computing, Mock::Computing, rejecting], POINTS);
    assert_eq!(status, 422);
}

#[test]
fn malformed_floatmultiply_result_is_500() {
    let bad = Mock::Fixed(200, parse(r#"{ "result": "not-a-number" }"#));
    let (status, body, _) =
        distance_run([Mock::Computing, bad, Mock::Computing, Mock::Computing], POINTS);
    assert_eq!(status, 500);
    assert_eq!(body["dependency"], "srvcs-floatmultiply");
}

// --- Further cases. ---

#[test]
fn identity_constants() {
    assert_eq!(SERVICE, "srvcs-distance3d");
    assert_eq!(CONCERN, "geometry: distance between two 3D points");
    assert_eq!(DEPENDS_ON.len(), 4);
}

#[test]
fn dependency_names_follow_depends_on() {
    let all = [
        Dependency::FloatSubtract,
        Dependency::FloatMultiply,
        Dependency::FloatAdd,
        Dependency::Sqrt,
    ];
    for (i, d) in all.iter().enumerate() {
        assert_eq!(d.name(), DEPENDS_ON[i]);
    }
}

#[test]
fn deps_url_picks_each_endpoint() {
    let deps = Deps {
        floatsubtract_url: "http://sub".to_string(),
        floatmultiply_url: "http://mul".to_string(),
        floatadd_url: "http://add".to_string(),
        sqrt_url: "http://sqrt".to_string(),
    };
    assert_eq!(deps.url(Dependency::FloatSubtract), "http://sub");
    assert_eq!(deps.url(Dependency::FloatMultiply), "http://mul");
    assert_eq!(deps.url(Dependency::FloatAdd), "http://add");
    assert_eq!(deps.url(Dependency::Sqrt), "http://sqrt");
}

#[test]
fn request_coordinates_are_looked_up() {
    let req = request(r#"{ "x1": 1, "y1": 2, "z1": 3, "x2": 4, "y2": 5, "z2": "six" }"#);
    assert_eq!(req.coordinate(Coordinate::X1), &parse("1"));
    assert_eq!(req.coordinate(Coordinate::Y1), &parse("2"));
    assert_eq!(req.coordinate(Coordinate::Z1), &parse("3"));
    assert_eq!(req.coordinate(Coordinate::X2), &parse("4"));
    assert_eq!(req.coordinate(Coordinate::Y2), &parse("5"));
    assert_eq!(req.coordinate(Coordinate::Z2), &parse("\"six\""));
}

#[test]
fn plan_calls_in_order() {
    let expected = [
        Dependency::FloatSubtract,
        Dependency::FloatSubtract,
        Dependency::FloatSubtract,
        Dependency::FloatMultiply,
        Dependency::FloatMultiply,
        Dependency::FloatMultiply,
        Dependency::FloatAdd,
        Dependency::FloatAdd,
        Dependency::Sqrt,
    ];
    assert_eq!(STEPS, 9);
    for k in 0..STEPS {
        assert_eq!(call_at(k).dependency, expected[k]);
    }
    let (_, _, called) = distance_run(computing(), POINTS);
    assert_eq!(called, expected.to_vec());
}

#[test]
fn plan_payloads() {
    let sub_x = call_at(0);
    assert_eq!(
        sub_x.payload,
        vec![
            Entry { key: "a", cell: Cell::Coordinate(Coordinate::X2) },
            Entry { key: "b", cell: Cell::Coordinate(Coordinate::X1) },
        ]
    );
    let sum = call_at(7);
    assert_eq!(
        sum.payload,
        vec![Entry { key: "a", cell: Cell::Answer(6) }, Entry { key: "b", cell: Cell::Answer(5) }]
    );
    let root = call_at(8);
    assert_eq!(root.payload, vec![Entry { key: "value", cell: Cell::Answer(7) }]);
}

#[test]
fn failure_stops_further_calls() {
    let (_, _, called) =
        distance_run([Mock::Computing, Mock::Dead, Mock::Computing, Mock::Computing], POINTS);
    assert_eq!(
        called,
        vec![
            Dependency::FloatSubtract,
            Dependency::FloatSubtract,
            Dependency::FloatSubtract,
            Dependency::FloatMultiply
        ]
    );
}

#[test]
fn unexpected_status_degrades() {
    let odd = Mock::Fixed(404, parse(r#"{ "result": 1 }"#));
    let (status, body, _) = distance_run([Mock::Computing, Mock::Computing, odd, Mock::Computing], POINTS);
    assert_eq!(status, 503);
    assert_eq!(body["error"], "dependency unavailable");
    assert_eq!(body["dependency"], "srvcs-floatadd");
}

#[test]
fn settle_each_outcome() {
    assert!(settle(
        Dependency::Sqrt,
        Answer::Replied { status: 200, body: parse(r#"{"result": 2}"#) }
    )
    .is_ok());
    let err = settle(Dependency::Sqrt, Answer::Unreachable).err().unwrap();
    assert_eq!(err.status, 503);
    let err = settle(
        Dependency::Sqrt,
        Answer::Replied { status: 200, body: parse(r#"{"result": "x"}"#) },
    )
    .err()
    .unwrap();
    assert_eq!(err.status, 500);
    let err = settle(
        Dependency::Sqrt,
        Answer::Replied { status: 422, body: parse(r#"{"error": "no"}"#) },
    )
    .err()
    .unwrap();
    assert_eq!(err.status, 422);
    match err.body {
        Body::Forwarded(v) => assert_eq!(v, parse(r#"{"error": "no"}"#)),
        Body::Fields(_) => panic!("a rejection is forwarded"),
    }
    let err = settle(
        Dependency::Sqrt,
        Answer::Replied { status: 500, body: Value::Null },
    )
    .err()
    .unwrap();
    assert_eq!(err.status, 503);
}

#[test]
fn forward_keeps_valid_statuses_only() {
    assert_eq!(forward(422, Value::Null).status, 422);
    assert_eq!(forward(100, Value::Null).status, 100);
    assert_eq!(forward(999, Value::Null).status, 999);
    assert_eq!(forward(99, Value::Null).status, 502);
    assert_eq!(forward(1000, Value::Null).status, 502);
    assert_eq!(forward(0, Value::Null).status, 502);
}

#[test]
fn error_replies_name_the_dependency() {
    let d = degraded("srvcs-floatadd");
    assert_eq!(d.status, 503);
    match d.body {
        Body::Fields(f) => assert_eq!(
            f,
            vec![
                Entry { key: "error", cell: Cell::Text("dependency unavailable") },
                Entry { key: "dependency", cell: Cell::Text("srvcs-floatadd") },
            ]
        ),
        Body::Forwarded(_) => panic!("an error body is laid out here"),
    }
    let m = malformed("srvcs-sqrt");
    assert_eq!(m.status, 500);
    match m.body {
        Body::Fields(f) => assert_eq!(
            f,
            vec![
                Entry { key: "error", cell: Cell::Text("dependency returned a malformed result") },
                Entry { key: "dependency", cell: Cell::Text("srvcs-sqrt") },
            ]
        ),
        Body::Forwarded(_) => panic!("an error body is laid out here"),
    }
}

#[test]
fn ok_echoes_coordinates_then_result() {
    let r = ok(Cell::Answer(8));
    assert_eq!(r.status, 200);
    match r.body {
        Body::Fields(f) => {
            let keys: Vec<&str> = f.iter().map(|e| e.key).collect();
            assert_eq!(keys, vec!["x1", "y1", "z1", "x2", "y2", "z2", "result"]);
            assert_eq!(f[6].cell, Cell::Answer(8));
            assert_eq!(f[3].cell, Cell::Coordinate(Coordinate::X2));
        }
        Body::Forwarded(_) => panic!("a success body is laid out here"),
    }
}

#[test]
fn run_positions_advance() {
    let step = start();
    match step {
        Step::Ask(run, call) => {
            assert_eq!(run.position(), 0);
            assert_eq!(call.dependency, Dependency::FloatSubtract);
            let next = advance(
                run,
                Answer::Replied { status: 200, body: parse(r#"{"result": 1}"#) },
            );
            match next {
                Step::Ask(run, _) => assert_eq!(run.position(), 1),
                Step::Respond(_) => panic!("the run goes on"),
            }
        }
        Step::Respond(_) => panic!("the run starts with a call"),
    }
}

#[test]
fn api_doc_describes_both_operations() {
    let endpoints = ApiDoc::endpoints();
    assert_eq!(endpoints.len(), 2);
    assert_eq!(endpoints[0].path, "/");
    assert_eq!(endpoints[0].method, Method::Get);
    assert_eq!(endpoints[0].operation_id, "index");
    assert_eq!(endpoints[1].method, Method::Post);
    assert_eq!(endpoints[1].operation_id, "evaluate");
    let statuses: Vec<&str> = endpoints[1].responses.iter().map(|r| r.status).collect();
    assert_eq!(statuses, vec!["200", "422", "500", "503"]);
    let doc = ApiDoc::openapi();
    assert_eq!(doc.info.title, "srvcs-distance3d");
    let root = doc.paths.paths.get("/").expect("path / present");
    let post = root.post.as_ref().unwrap();
    assert_eq!(post.operation_id.as_deref(), Some("evaluate"));
    let post_codes: Vec<&str> = post.responses.responses.keys().map(|k| k.as_str()).collect();
    assert_eq!(post_codes, vec!["200", "422", "500", "503"]);
    let get_codes: Vec<&str> =
        root.get.as_ref().unwrap().responses.responses.keys().map(|k| k.as_str()).collect();
    assert_eq!(get_codes, vec!["200"]);
    assert_eq!(doc.paths.paths.len(), 1);
    assert_eq!(root.get.as_ref().unwrap().operation_id.as_deref(), Some("index"));
    assert_eq!(
        root.get.as_ref().unwrap().summary.as_deref(),
        Some("`GET /` \u{2014} service identity (srvcs service standard).")
    );
    assert!(root.get.as_ref().unwrap().description.is_none());
    assert_eq!(
        post.summary.as_deref(),
        Some("`POST /` \u{2014} Euclidean distance between two 3D points.")
    );
    assert_eq!(post.description.as_deref(), Some(EVALUATE_DESCRIPTION));
    assert!(post.description.as_deref().unwrap().starts_with("This service owns the *control flow*"));
    assert!(post.request_body.is_some());
    assert_eq!(doc.info.version, "0.1.0");
}

#[test]
fn api_doc_serialises_schemas_and_bodies() {
    let json: Value = serde_json::from_str(&ApiDoc::openapi().to_json().unwrap()).unwrap();
    let schemas = &json["components"]["schemas"];
    assert_eq!(schemas["Info"]["type"], "object");
    assert_eq!(schemas["Info"]["properties"]["service"]["type"], "string");
    assert_eq!(schemas["Info"]["properties"]["depends_on"]["type"], "array");
    assert_eq!(schemas["Info"]["properties"]["depends_on"]["items"]["type"], "string");
    assert_eq!(schemas["EvalRequest"]["properties"]["x1"]["type"], "object");
    assert_eq!(
        schemas["EvalRequest"]["properties"]["z2"]["description"],
        "Z coordinate of the second point."
    );
    assert_eq!(schemas["EvalRequest"]["required"].as_array().unwrap().len(), 6);
    assert_eq!(schemas["Distance3dResponse"]["properties"]["result"]["type"], "number");
    assert_eq!(schemas["Distance3dResponse"]["properties"]["result"]["format"], "double");
    assert_eq!(schemas["Distance3dResponse"]["required"].as_array().unwrap().len(), 7);
    let post = &json["paths"]["/"]["post"];
    assert_eq!(
        post["requestBody"]["content"]["application/json"]["schema"]["$ref"],
        "#/components/schemas/EvalRequest"
    );
    assert_eq!(post["requestBody"]["required"], true);
    assert_eq!(
        post["responses"]["200"]["content"]["application/json"]["schema"]["$ref"],
        "#/components/schemas/Distance3dResponse"
    );
    assert_eq!(post["responses"]["503"]["description"], "a dependency is unavailable");
    assert!(post["responses"]["503"].get("content").is_none());
    let get = &json["paths"]["/"]["get"];
    assert_eq!(
        get["responses"]["200"]["content"]["application/json"]["schema"]["$ref"],
        "#/components/schemas/Info"
    );
}

#[test]
fn api_doc_schema_table() {
    let schemas = ApiDoc::schemas();
    let names: Vec<&str> = schemas.iter().map(|s| s.name).collect();
    assert_eq!(names, vec!["Info", "EvalRequest", "Distance3dResponse"]);
    assert_eq!(schemas[1].fields.len(), 6);
    assert_eq!(schemas[2].fields[6].kind, FieldKind::Double);
}

#[test]
fn numeric_result_is_judged_from_the_body() {
    let ok_int = Answer::Replied { status: 200, body: parse(r#"{"result": 4}"#) };
    assert!(settle(Dependency::FloatAdd, ok_int).is_ok());
    let ok_float = Answer::Replied { status: 200, body: parse(r#"{"result": -2.5, "extra": true}"#) };
    assert!(settle(Dependency::FloatAdd, ok_float).is_ok());
    for body in [r#"{"result": null}"#, r#"{"value": 3}"#, r#"7"#, r#"[1, 2]"#, r#"{"result": "3"}"#] {
        let err = settle(Dependency::FloatAdd, Answer::Replied { status: 200, body: parse(body) })
            .err()
            .unwrap();
        assert_eq!(err.status, 500);
    }
}

#[test]
fn distance_is_symmetric_in_the_points() {
    let (s1, b1, _) = distance_run(
        computing(),
        r#"{ "x1": -1.5, "y1": 2.0, "z1": 0.5, "x2": 1.5, "y2": -2.0, "z2": -0.7 }"#,
    );
    let (s2, b2, _) = distance_run(
        computing(),
        r#"{ "x1": 1.5, "y1": -2.0, "z1": -0.7, "x2": -1.5, "y2": 2.0, "z2": 0.5 }"#,
    );
    assert_eq!(s1, 200);
    assert_eq!(s2, 200);
    assert_eq!(result_f64(&b1), result_f64(&b2));
    assert_eq!(b2["x1"], parse("1.5"));
    assert_eq!(b2["z2"], parse("0.5"));
}

#[test]
fn api_doc_required_lists_follow_fields() {
    let json: Value = serde_json::from_str(&ApiDoc::openapi().to_json().unwrap()).unwrap();
    let required: Vec<&str> = json["components"]["schemas"]["Info"]["required"]
        .as_array()
        .unwrap()
        .iter()
        .map(|v| v.as_str().unwrap())
        .collect();
    assert_eq!(required, vec!["service", "concern", "depends_on"]);
}
