use vstd::prelude::*;
use crate::identity::SERVICE;
use crate::reply::{Coordinate, coordinate_key, lemma_reply_keys_distinct};
use utoipa::openapi::content::Content;
use utoipa::openapi::path::{Operation, OperationBuilder, PathItem, Paths, PathsBuilder};
use utoipa::openapi::request_body::{RequestBody, RequestBodyBuilder};
use utoipa::openapi::response::{Response, ResponseBuilder};
use utoipa::openapi::schema::{Array, Components, ComponentsBuilder, Object, ObjectBuilder, Ref};
use utoipa::openapi::OpenApi;

verus! {

#[verifier::external_type_specification]
#[verifier::external_body]
pub struct ExOpenApi(utoipa::openapi::OpenApi);

#[verifier::external_type_specification]
#[verifier::external_body]
pub struct ExPaths(utoipa::openapi::path::Paths);

#[verifier::external_type_specification]
#[verifier::external_body]
pub struct ExPathsBuilder(utoipa::openapi::path::PathsBuilder);

#[verifier::external_type_specification]
#[verifier::external_body]
pub struct ExPathItem(utoipa::openapi::path::PathItem);

#[verifier::external_type_specification]
#[verifier::external_body]
pub struct ExOperation(utoipa::openapi::path::Operation);

#[verifier::external_type_specification]
#[verifier::external_body]
pub struct ExOperationBuilder(utoipa::openapi::path::OperationBuilder);

#[verifier::external_type_specification]
#[verifier::external_body]
pub struct ExResponse(utoipa::openapi::response::Response);

#[verifier::external_type_specification]
#[verifier::external_body]
pub struct ExResponseBuilder(utoipa::openapi::response::ResponseBuilder);

#[verifier::external_type_specification]
#[verifier::external_body]
pub struct ExContent(utoipa::openapi::content::Content);

#[verifier::external_type_specification]
#[verifier::external_body]
pub struct ExRef(utoipa::openapi::schema::Ref);

#[verifier::external_type_specification]
#[verifier::external_body]
pub struct ExRequestBody(utoipa::openapi::request_body::RequestBody);

#[verifier::external_type_specification]
#[verifier::external_body]
pub struct ExRequestBodyBuilder(utoipa::openapi::request_body::RequestBodyBuilder);

#[verifier::external_type_specification]
#[verifier::external_body]
pub struct ExObject(utoipa::openapi::schema::Object);

#[verifier::external_type_specification]
#[verifier::external_body]
pub struct ExObjectBuilder(utoipa::openapi::schema::ObjectBuilder);

#[verifier::external_type_specification]
#[verifier::external_body]
pub struct ExArray(utoipa::openapi::schema::Array);

#[verifier::external_type_specification]
#[verifier::external_body]
pub struct ExComponents(utoipa::openapi::schema::Components);

#[verifier::external_type_specification]
#[verifier::external_body]
pub struct ExComponentsBuilder(utoipa::openapi::schema::ComponentsBuilder);

/// The media type of every body the service documents.
pub const JSON: &'static str = "application/json";

/// The version under which the document is published.
pub const API_VERSION: &'static str = "0.1.0";

/// The description of `POST /`: the paragraphs of its documentation after the
/// first line, as the OpenAPI document carries them.
pub const EVALUATE_DESCRIPTION: &'static str = "This service owns the *control flow* but delegates every arithmetic step to\nits dependencies, exactly as specified:\n\n1. `dx = x2 - x1`, `dy = y2 - y1`, `dz = z2 - z1` via `srvcs-floatsubtract`;\n2. square each via `srvcs-floatmultiply`;\n3. `sum = (dx2 + dy2) + dz2` by chaining two `srvcs-floatadd` calls;\n4. `result = sqrt(sum)` via `srvcs-sqrt`.\n\nIf a dependency is unreachable it reports itself degraded (`503`); if a\ndependency rejects an input it forwards the `422`.";

/// HTTP methods of the documented operations.
#[derive(Clone, Copy, PartialEq, Eq, Structural, Debug)]
pub enum Method {
    Get,
    Post,
}

/// A documented response of an operation: its status, what it means, and the
/// component schema of its JSON body, if it has one.
#[derive(Clone, Copy, PartialEq, Eq, Debug)]
pub struct Documented {
    pub status: &'static str,
    pub description: &'static str,
    pub schema: Option<&'static str>,
}

/// A documented operation of the service.
pub struct Endpoint {
    pub path: &'static str,
    pub method: Method,
    pub operation_id: &'static str,
    pub summary: &'static str,
    pub description: Option<&'static str>,
    /// The component schema of the (required) JSON request body, if any.
    pub request_schema: Option<&'static str>,
    pub responses: Vec<Documented>,
}

pub struct EndpointView {
    pub path: &'static str,
    pub method: Method,
    pub operation_id: &'static str,
    pub summary: &'static str,
    pub description: Option<&'static str>,
    pub request_schema: Option<&'static str>,
    pub responses: Seq<Documented>,
}

impl View for Endpoint {
    type V = EndpointView;

    open spec fn view(&self) -> EndpointView {
        EndpointView {
            path: self.path,
            method: self.method,
            operation_id: self.operation_id,
            summary: self.summary,
            description: self.description,
            request_schema: self.request_schema,
            responses: self.responses@,
        }
    }
}

/// The JSON type of a schema property.
#[derive(Clone, Copy, PartialEq, Eq, Structural, Debug)]
pub enum FieldKind {
    /// A string.
    Text,
    /// An array of strings.
    TextList,
    /// Any JSON value, documented as an object.
    AnyValue,
    /// A double-precision number.
    Double,
}

/// The JSON types that the documented schemas use.
#[derive(Clone, Copy, PartialEq, Eq, Structural, Debug)]
pub enum JsonType {
    String,
    Number,
    Object,
}

/// The number formats that the documented schemas use.
#[derive(Clone, Copy, PartialEq, Eq, Structural, Debug)]
pub enum JsonFormat {
    Double,
}

/// The JSON type of a property of the given kind; for a list, the type of
/// its items.
pub open spec fn type_of_kind(kind: FieldKind) -> JsonType {
    match kind {
        FieldKind::Text => JsonType::String,
        FieldKind::TextList => JsonType::String,
        FieldKind::AnyValue => JsonType::Object,
        FieldKind::Double => JsonType::Number,
    }
}

/// The JSON type of a property of the given kind; for a list, the type of
/// its items.
pub fn json_type(kind: FieldKind) -> (t: JsonType)
    ensures
        t == type_of_kind(kind),
{
    match kind {
        FieldKind::Text => JsonType::String,
        FieldKind::TextList => JsonType::String,
        FieldKind::AnyValue => JsonType::Object,
        FieldKind::Double => JsonType::Number,
    }
}

/// The number format of a property of the given kind, if it has one.
pub open spec fn format_of_kind(kind: FieldKind) -> Option<JsonFormat> {
    match kind {
        FieldKind::Double => Some(JsonFormat::Double),
        _ => None,
    }
}

/// The number format of a property of the given kind, if it has one.
pub fn json_format(kind: FieldKind) -> (f: Option<JsonFormat>)
    ensures
        f == format_of_kind(kind),
{
    match kind {
        FieldKind::Double => Some(JsonFormat::Double),
        _ => None,
    }
}

/// A property of a component schema; every property is required.
#[derive(Clone, Copy, PartialEq, Eq, Debug)]
pub struct SchemaField {
    pub name: &'static str,
    pub kind: FieldKind,
    pub description: Option<&'static str>,
}

/// A component schema: an object with the given properties.
pub struct SchemaDef {
    pub name: &'static str,
    pub fields: Vec<SchemaField>,
}

pub struct SchemaDefView {
    pub name: &'static str,
    pub fields: Seq<SchemaField>,
}

impl View for SchemaDef {
    type V = SchemaDefView;

    open spec fn view(&self) -> SchemaDefView {
        SchemaDefView { name: self.name, fields: self.fields@ }
    }
}

pub open spec fn documented(
    status: &'static str,
    description: &'static str,
    schema: Option<&'static str>,
) -> Documented {
    Documented { status, description, schema }
}

/// `GET /`: the service identity.
pub open spec fn index_endpoint() -> EndpointView {
    EndpointView {
        path: "/",
        method: Method::Get,
        operation_id: "index",
        summary: "`GET /` \u{2014} service identity (srvcs service standard).",
        description: None,
        request_schema: None,
        responses: seq![documented("200", "", Some("Info"))],
    }
}

/// `POST /`: the distance between two points.
pub open spec fn evaluate_endpoint() -> EndpointView {
    EndpointView {
        path: "/",
        method: Method::Post,
        operation_id: "evaluate",
        summary: "`POST /` \u{2014} Euclidean distance between two 3D points.",
        description: Some(EVALUATE_DESCRIPTION),
        request_schema: Some("EvalRequest"),
        responses: seq![
            documented("200", "", Some("Distance3dResponse")),
            documented("422", "a dependency rejected an input (forwarded)", None),
            documented("500", "a dependency returned a malformed result", None),
            documented("503", "a dependency is unavailable", None),
        ],
    }
}

pub open spec fn field(name: &'static str, kind: FieldKind, description: Option<&'static str>) -> SchemaField {
    SchemaField { name, kind, description }
}

/// The schema of the identity document.
pub open spec fn info_schema() -> SchemaDefView {
    SchemaDefView {
        name: "Info",
        fields: seq![
            field("service", FieldKind::Text, None),
            field("concern", FieldKind::Text, None),
            field("depends_on", FieldKind::TextList, None),
        ],
    }
}

/// The schema of the request of `POST /`.
pub open spec fn eval_request_schema() -> SchemaDefView {
    SchemaDefView {
        name: "EvalRequest",
        fields: seq![
            field("x1", FieldKind::AnyValue, Some("X coordinate of the first point.")),
            field("y1", FieldKind::AnyValue, Some("Y coordinate of the first point.")),
            field("z1", FieldKind::AnyValue, Some("Z coordinate of the first point.")),
            field("x2", FieldKind::AnyValue, Some("X coordinate of the second point.")),
            field("y2", FieldKind::AnyValue, Some("Y coordinate of the second point.")),
            field("z2", FieldKind::AnyValue, Some("Z coordinate of the second point.")),
        ],
    }
}

/// The schema of the successful reply of `POST /`.
pub open spec fn distance_schema() -> SchemaDefView {
    SchemaDefView {
        name: "Distance3dResponse",
        fields: seq![
            field("x1", FieldKind::AnyValue, None),
            field("y1", FieldKind::AnyValue, None),
            field("z1", FieldKind::AnyValue, None),
            field("x2", FieldKind::AnyValue, None),
            field("y2", FieldKind::AnyValue, None),
            field("z2", FieldKind::AnyValue, None),
            field("result", FieldKind::Double, None),
        ],
    }
}

/// The texts of an operation, each where it is set.
pub struct Labels {
    pub id: Option<Seq<char>>,
    pub summary: Option<Seq<char>>,
    pub description: Option<Seq<char>>,
}

/// What the document says of an operation: its texts and the statuses of its
/// documented responses.
pub struct OperationFacts {
    pub labels: Labels,
    pub statuses: Set<Seq<char>>,
}

pub open spec fn text_of(text: Option<&'static str>) -> Option<Seq<char>> {
    match text {
        Some(t) => Some(t@),
        None => None,
    }
}

/// What the document should say of a documented operation.
pub open spec fn facts_of(e: EndpointView) -> OperationFacts {
    OperationFacts {
        labels: Labels {
            id: Some(e.operation_id@),
            summary: Some(e.summary@),
            description: text_of(e.description),
        },
        statuses: statuses(e.responses),
    }
}

/// What an operation holds, by the names below.
pub open spec fn operation_facts(operation: Operation) -> OperationFacts {
    OperationFacts { labels: operation_labels(operation), statuses: operation_statuses(operation) }
}

/// The OpenAPI document of the service.
pub struct ApiDoc;

impl ApiDoc {
    /// The operations that the document describes.
    pub open spec fn described() -> Seq<EndpointView> {
        seq![index_endpoint(), evaluate_endpoint()]
    }

    /// The component schemas that the document holds.
    pub open spec fn component_schemas() -> Seq<SchemaDefView> {
        seq![info_schema(), eval_request_schema(), distance_schema()]
    }

    /// The operations of the document, each under its path and method.
    pub open spec fn documented_operations() -> Map<(Seq<char>, Method), OperationFacts> {
        map![
            ("/"@, Method::Get) => facts_of(index_endpoint()),
            ("/"@, Method::Post) => facts_of(evaluate_endpoint()),
        ]
    }

    /// The component schemas of the document, each under its name.
    pub open spec fn documented_schemas() -> Map<Seq<char>, SchemaFacts> {
        schemas_upto(Self::component_schemas(), Self::component_schemas().len())
    }

    /// The operations that the document describes.
    pub fn endpoints() -> (endpoints: Vec<Endpoint>)
        ensures
            endpoints@.len() == Self::described().len(),
            forall|i: int| 0 <= i < endpoints@.len() ==> #[trigger] endpoints@[i]@ == Self::described()[i],
    {
        let mut get_responses: Vec<Documented> = Vec::new();
        get_responses.push(Documented { status: "200", description: "", schema: Some("Info") });
        let mut post_responses: Vec<Documented> = Vec::new();
        post_responses.push(
            Documented { status: "200", description: "", schema: Some("Distance3dResponse") },
        );
        post_responses.push(
            Documented {
                status: "422",
                description: "a dependency rejected an input (forwarded)",
                schema: None,
            },
        );
        post_responses.push(
            Documented {
                status: "500",
                description: "a dependency returned a malformed result",
                schema: None,
            },
        );
        post_responses.push(
            Documented { status: "503", description: "a dependency is unavailable", schema: None },
        );
        assert(get_responses@ =~= index_endpoint().responses);
        assert(post_responses@ =~= evaluate_endpoint().responses);
        let mut endpoints: Vec<Endpoint> = Vec::new();
        endpoints.push(
            Endpoint {
                path: "/",
                method: Method::Get,
                operation_id: "index",
                summary: "`GET /` \u{2014} service identity (srvcs service standard).",
                description: None,
                request_schema: None,
                responses: get_responses,
            },
        );
        endpoints.push(
            Endpoint {
                path: "/",
                method: Method::Post,
                operation_id: "evaluate",
                summary: "`POST /` \u{2014} Euclidean distance between two 3D points.",
                description: Some(EVALUATE_DESCRIPTION),
                request_schema: Some("EvalRequest"),
                responses: post_responses,
            },
        );
        endpoints
    }

    /// The component schemas that the document holds.
    pub fn schemas() -> (schemas: Vec<SchemaDef>)
        ensures
            schemas@.len() == Self::component_schemas().len(),
            forall|i: int| 0 <= i < schemas@.len() ==> #[trigger] schemas@[i]@ == Self::component_schemas()[i],
    {
        let mut info: Vec<SchemaField> = Vec::new();
        info.push(SchemaField { name: "service", kind: FieldKind::Text, description: None });
        info.push(SchemaField { name: "concern", kind: FieldKind::Text, description: None });
        info.push(SchemaField { name: "depends_on", kind: FieldKind::TextList, description: None });
        assert(info@ =~= info_schema().fields);
        let mut request: Vec<SchemaField> = Vec::new();
        request.push(SchemaField { name: "x1", kind: FieldKind::AnyValue, description: Some("X coordinate of the first point.") });
        request.push(SchemaField { name: "y1", kind: FieldKind::AnyValue, description: Some("Y coordinate of the first point.") });
        request.push(SchemaField { name: "z1", kind: FieldKind::AnyValue, description: Some("Z coordinate of the first point.") });
        request.push(SchemaField { name: "x2", kind: FieldKind::AnyValue, description: Some("X coordinate of the second point.") });
        request.push(SchemaField { name: "y2", kind: FieldKind::AnyValue, description: Some("Y coordinate of the second point.") });
        request.push(SchemaField { name: "z2", kind: FieldKind::AnyValue, description: Some("Z coordinate of the second point.") });
        assert(request@ =~= eval_request_schema().fields);
        let mut distance: Vec<SchemaField> = Vec::new();
        distance.push(SchemaField { name: "x1", kind: FieldKind::AnyValue, description: None });
        distance.push(SchemaField { name: "y1", kind: FieldKind::AnyValue, description: None });
        distance.push(SchemaField { name: "z1", kind: FieldKind::AnyValue, description: None });
        distance.push(SchemaField { name: "x2", kind: FieldKind::AnyValue, description: None });
        distance.push(SchemaField { name: "y2", kind: FieldKind::AnyValue, description: None });
        distance.push(SchemaField { name: "z2", kind: FieldKind::AnyValue, description: None });
        distance.push(SchemaField { name: "result", kind: FieldKind::Double, description: None });
        assert(distance@ =~= distance_schema().fields);
        let mut schemas: Vec<SchemaDef> = Vec::new();
        schemas.push(SchemaDef { name: "Info", fields: info });
        schemas.push(SchemaDef { name: "EvalRequest", fields: request });
        schemas.push(SchemaDef { name: "Distance3dResponse", fields: distance });
        schemas
    }

    /// The OpenAPI document, built by `utoipa`: titled with the service name,
    /// holding under `/` the `GET` and `POST` operations of `endpoints` (each
    /// with its id, summary, description, request body and responses), and the
    /// component schemas of `schemas`.
    pub fn openapi() -> (doc: OpenApi)
        ensures
            document_operations(doc) == Self::documented_operations(),
            document_info(doc) == (SERVICE@, API_VERSION@),
            document_schemas(doc) == Self::documented_schemas(),
    {
        let endpoints = Self::endpoints();
        let mut paths = paths_builder();
        let mut i: usize = 0;
        while i < endpoints.len()
            invariant
                i <= endpoints@.len(),
                endpoints@.len() == Self::described().len(),
                forall|k: int| 0 <= k < endpoints@.len() ==> #[trigger] endpoints@[k]@ == Self::described()[k],
                builder_operations(paths) == operations_upto(Self::described(), i as nat),
            decreases endpoints.len() - i,
        {
            let endpoint = &endpoints[i];
            assert(endpoint@ == Self::described()[i as int]);
            let operation = build_operation(endpoint);
            let item = path_item(endpoint.method, operation);
            paths = paths_with(paths, endpoint.path, item);
            i = i + 1;
        }
        proof {
            lemma_described_operations();
        }
        let schemas = Self::schemas();
        let mut components = components_builder();
        let mut k: usize = 0;
        while k < schemas.len()
            invariant
                k <= schemas@.len(),
                schemas@.len() == Self::component_schemas().len(),
                forall|m: int| 0 <= m < schemas@.len() ==> #[trigger] schemas@[m]@ == Self::component_schemas()[m],
                components_builder_schemas(components) == schemas_upto(Self::component_schemas(), k as nat),
            decreases schemas.len() - k,
        {
            let schema = &schemas[k];
            assert(schema@ == Self::component_schemas()[k as int]);
            components = components_schema(components, schema.name, build_schema(schema));
            k = k + 1;
        }
        let doc = openapi_new(SERVICE, API_VERSION, paths_build(paths));
        openapi_with_components(doc, components_build(components))
    }
}

/// The operation documented by `endpoint`.
fn build_operation(endpoint: &Endpoint) -> (operation: Operation)
    ensures
        operation_facts(operation) == facts_of(endpoint@),
{
    let mut builder = operation_builder();
    builder = operation_with_id(builder, endpoint.operation_id);
    builder = operation_with_summary(builder, endpoint.summary);
    match endpoint.description {
        Some(description) => {
            builder = operation_with_description(builder, description);
        },
        None => {},
    }
    match endpoint.request_schema {
        Some(name) => {
            let mut body = request_body_builder();
            body = request_body_content(body, JSON, content_of(schema_ref(name)));
            body = request_body_required(body, true);
            builder = operation_with_request_body(builder, request_body_build(body));
        },
        None => {},
    }
    let mut j: usize = 0;
    while j < endpoint.responses.len()
        invariant
            j <= endpoint.responses@.len(),
            builder_statuses(builder) == statuses(endpoint.responses@.take(j as int)),
            builder_labels(builder) == facts_of(endpoint@).labels,
        decreases endpoint.responses.len() - j,
    {
        let documented = endpoint.responses[j];
        let mut response = response_builder();
        response = response_with_description(response, documented.description);
        match documented.schema {
            Some(name) => {
                response = response_with_content(response, JSON, content_of(schema_ref(name)));
            },
            None => {},
        }
        builder = operation_with_response(builder, documented.status, response_build(response));
        assert(endpoint.responses@.take(j + 1).drop_last() =~= endpoint.responses@.take(j as int));
        j = j + 1;
    }
    assert(endpoint.responses@.take(j as int) =~= endpoint.responses@);
    operation_build(builder)
}

/// The schema of one property (for a list, of its items): its JSON type,
/// its number format and its description, where it has them.
fn build_property(field: SchemaField) -> Object {
    let mut b = object_typed(object_builder(), json_type(field.kind));
    match json_format(field.kind) {
        Some(format) => {
            b = object_with_format(b, format);
        },
        None => {},
    }
    match field.description {
        Some(d) => {
            b = object_with_description(b, d);
        },
        None => {},
    }
    object_build(b)
}

/// The object schema of a component: each property with its type, all
/// required, in the order of the fields.
fn build_schema(schema: &SchemaDef) -> (object: Object)
    ensures
        object_properties(object) == property_names(schema.fields@),
        object_required(object) == required_names(schema.fields@),
{
    let mut b = object_typed(object_builder(), JsonType::Object);
    let mut i: usize = 0;
    while i < schema.fields.len()
        invariant
            i <= schema.fields@.len(),
            builder_properties(b) == property_names(schema.fields@.take(i as int)),
            builder_required(b) == required_names(schema.fields@.take(i as int)),
        decreases schema.fields.len() - i,
    {
        let f = schema.fields[i];
        match f.kind {
            FieldKind::TextList => {
                b = object_with_array_property(b, f.name, array_of(build_property(f)));
            },
            _ => {
                b = object_with_property(b, f.name, build_property(f));
            },
        }
        b = object_with_required(b, f.name);
        assert(schema.fields@.take(i + 1).drop_last() =~= schema.fields@.take(i as int));
        i = i + 1;
    }
    assert(schema.fields@.take(i as int) =~= schema.fields@);
    object_build(b)
}

/// The names of the properties of a schema.
pub open spec fn property_names(fields: Seq<SchemaField>) -> Set<Seq<char>>
    decreases fields.len(),
{
    if fields.len() == 0 {
        Set::empty()
    } else {
        property_names(fields.drop_last()).insert(fields.last().name@)
    }
}

/// The required properties of a schema, in order: all of them.
pub open spec fn required_names(fields: Seq<SchemaField>) -> Seq<Seq<char>>
    decreases fields.len(),
{
    if fields.len() == 0 {
        Seq::empty()
    } else {
        required_names(fields.drop_last()).push(fields.last().name@)
    }
}

/// What the document says of a component schema: its properties and which
/// are required.
pub struct SchemaFacts {
    pub properties: Set<Seq<char>>,
    pub required: Seq<Seq<char>>,
}

/// What the document should say of a component schema.
pub open spec fn schema_facts(def: SchemaDefView) -> SchemaFacts {
    SchemaFacts { properties: property_names(def.fields), required: required_names(def.fields) }
}

/// What an object schema holds, by the names below.
pub open spec fn object_facts(object: Object) -> SchemaFacts {
    SchemaFacts { properties: object_properties(object), required: object_required(object) }
}

/// The component schemas collected from the first `n` definitions, in order.
pub open spec fn schemas_upto(defs: Seq<SchemaDefView>, n: nat) -> Map<Seq<char>, SchemaFacts>
    decreases n,
{
    if n == 0 {
        Map::empty()
    } else {
        schemas_upto(defs, (n - 1) as nat).insert(defs[n - 1].name@, schema_facts(defs[n - 1]))
    }
}

/// No component schemas at all.
pub open spec fn no_schemas() -> Map<Seq<char>, SchemaFacts> {
    Map::empty()
}

/// The component schemas are `Info`, `EvalRequest` and `Distance3dResponse`.
pub proof fn lemma_documented_schema_names()
    ensures
        ApiDoc::documented_schemas().dom() == set!["Info"@, "EvalRequest"@, "Distance3dResponse"@],
{
    let defs = ApiDoc::component_schemas();
    assert(schemas_upto(defs, 0).dom() =~= Set::<Seq<char>>::empty());
    assert(schemas_upto(defs, 1).dom() =~= set!["Info"@]);
    assert(schemas_upto(defs, 2).dom() =~= set!["Info"@, "EvalRequest"@]);
    assert(ApiDoc::documented_schemas().dom() =~= set!["Info"@, "EvalRequest"@, "Distance3dResponse"@]);
}

/// The kind of the property called `name`, if the schema has one (first occurrence).
pub open spec fn kind_of(fields: Seq<SchemaField>, name: &'static str) -> Option<FieldKind>
    decreases fields.len(),
{
    if fields.len() == 0 {
        None
    } else if fields[0].name == name {
        Some(fields[0].kind)
    } else {
        kind_of(fields.drop_first(), name)
    }
}

/// The `Info` schema documents the identity reply as it is: `service` and
/// `concern` are strings, `depends_on` is a list of strings, and there is
/// nothing else.
pub proof fn lemma_info_schema_types()
    ensures
        ApiDoc::component_schemas()[0].name == "Info",
        ApiDoc::component_schemas()[0].fields.len() == 3,
        kind_of(ApiDoc::component_schemas()[0].fields, "service") == Some(FieldKind::Text),
        kind_of(ApiDoc::component_schemas()[0].fields, "concern") == Some(FieldKind::Text),
        kind_of(ApiDoc::component_schemas()[0].fields, "depends_on") == Some(FieldKind::TextList),
{
    reveal_strlit("service");
    reveal_strlit("concern");
    reveal_strlit("depends_on");
    assert("service"@[0] != "concern"@[0]);
    assert("service"@[0] != "depends_on"@[0]);
    assert("concern"@[0] != "depends_on"@[0]);
    let f = ApiDoc::component_schemas()[0].fields;
    reveal_with_fuel(kind_of, 4);
    assert(f.drop_first() =~= f.subrange(1, 3));
    assert(f.subrange(1, 3).drop_first() =~= f.subrange(2, 3));
}

/// The `EvalRequest` schema documents exactly the six coordinates of a
/// request, each under its key, as any JSON value.
pub proof fn lemma_request_schema_types()
    ensures
        ApiDoc::component_schemas()[1].name == "EvalRequest",
        ApiDoc::component_schemas()[1].fields.len() == 6,
        forall|c: Coordinate|
            #[trigger] kind_of(ApiDoc::component_schemas()[1].fields, coordinate_key(c)) == Some(FieldKind::AnyValue),
{
    lemma_reply_keys_distinct();
    let f = ApiDoc::component_schemas()[1].fields;
    reveal_with_fuel(kind_of, 7);
    assert(f.drop_first() =~= f.subrange(1, 6));
    assert(f.subrange(1, 6).drop_first() =~= f.subrange(2, 6));
    assert(f.subrange(2, 6).drop_first() =~= f.subrange(3, 6));
    assert(f.subrange(3, 6).drop_first() =~= f.subrange(4, 6));
    assert(f.subrange(4, 6).drop_first() =~= f.subrange(5, 6));
    assert(f.subrange(5, 6).drop_first() =~= Seq::<SchemaField>::empty());
}

/// The `Distance3dResponse` schema documents the successful reply: the six
/// coordinates under their keys, as any JSON value, and `result` as a double.
pub proof fn lemma_distance_schema_types()
    ensures
        ApiDoc::component_schemas()[2].name == "Distance3dResponse",
        ApiDoc::component_schemas()[2].fields.len() == 7,
        forall|c: Coordinate|
            #[trigger] kind_of(ApiDoc::component_schemas()[2].fields, coordinate_key(c)) == Some(FieldKind::AnyValue),
        kind_of(ApiDoc::component_schemas()[2].fields, "result") == Some(FieldKind::Double),
{
    lemma_reply_keys_distinct();
    let f = ApiDoc::component_schemas()[2].fields;
    reveal_with_fuel(kind_of, 8);
    assert(f.drop_first() =~= f.subrange(1, 7));
    assert(f.subrange(1, 7).drop_first() =~= f.subrange(2, 7));
    assert(f.subrange(2, 7).drop_first() =~= f.subrange(3, 7));
    assert(f.subrange(3, 7).drop_first() =~= f.subrange(4, 7));
    assert(f.subrange(4, 7).drop_first() =~= f.subrange(5, 7));
    assert(f.subrange(5, 7).drop_first() =~= f.subrange(6, 7));
    assert(f.subrange(6, 7).drop_first() =~= Seq::<SchemaField>::empty());
}

/// Only `POST` carries a request body: every documented `GET` has none, and
/// every documented `POST` takes the required `EvalRequest` body. Every schema
/// that a request or response body refers to is one of the component schemas.
pub proof fn lemma_request_bodies()
    ensures
        forall|i: int|
            0 <= i < ApiDoc::described().len() && (#[trigger] ApiDoc::described()[i]).method == Method::Get
                ==> ApiDoc::described()[i].request_schema is None,
        forall|i: int|
            0 <= i < ApiDoc::described().len() && (#[trigger] ApiDoc::described()[i]).method == Method::Post
                ==> ApiDoc::described()[i].request_schema == Some("EvalRequest"),
        forall|i: int|
            0 <= i < ApiDoc::described().len() && (#[trigger] ApiDoc::described()[i]).request_schema is Some
                ==> exists|k: int|
                    0 <= k < ApiDoc::component_schemas().len()
                        && ApiDoc::component_schemas()[k].name == ApiDoc::described()[i].request_schema->0,
        forall|i: int, j: int|
            0 <= i < ApiDoc::described().len() && 0 <= j < ApiDoc::described()[i].responses.len()
                && (#[trigger] ApiDoc::described()[i].responses[j]).schema is Some
                ==> exists|k: int|
                    0 <= k < ApiDoc::component_schemas().len()
                        && ApiDoc::component_schemas()[k].name == ApiDoc::described()[i].responses[j].schema->0,
{
    let defs = ApiDoc::component_schemas();
    assert(defs[0].name == "Info");
    assert(defs[1].name == "EvalRequest");
    assert(defs[2].name == "Distance3dResponse");
}

/// The statuses of a list of documented responses.
pub open spec fn statuses(responses: Seq<Documented>) -> Set<Seq<char>>
    decreases responses.len(),
{
    if responses.len() == 0 {
        Set::empty()
    } else {
        statuses(responses.drop_last()).insert(responses.last().status@)
    }
}

/// Labels with no text set.
pub open spec fn no_labels() -> Labels {
    Labels { id: None, summary: None, description: None }
}

/// What adding a path item under `path` does to the operations already
/// collected: an operation already there under the path and method stays,
/// the item's other operations are added.
pub open spec fn merged(
    known: Map<(Seq<char>, Method), OperationFacts>,
    path: Seq<char>,
    item: Map<Method, OperationFacts>,
) -> Map<(Seq<char>, Method), OperationFacts> {
    Map::new(
        |k: (Seq<char>, Method)| known.contains_key(k) || (k.0 == path && item.contains_key(k.1)),
        |k: (Seq<char>, Method)| if known.contains_key(k) { known[k] } else { item[k.1] },
    )
}

/// No operations at all.
pub open spec fn no_operations() -> Map<(Seq<char>, Method), OperationFacts> {
    Map::empty()
}

/// The operations collected from the first `n` endpoints, added in order.
pub open spec fn operations_upto(endpoints: Seq<EndpointView>, n: nat) -> Map<(Seq<char>, Method), OperationFacts>
    decreases n,
{
    if n == 0 {
        Map::empty()
    } else {
        let e = endpoints[n - 1];
        merged(
            operations_upto(endpoints, (n - 1) as nat),
            e.path@,
            Map::<Method, OperationFacts>::empty().insert(e.method, facts_of(e)),
        )
    }
}

proof fn lemma_described_operations()
    ensures
        operations_upto(ApiDoc::described(), 2) == ApiDoc::documented_operations(),
{
    let eps = ApiDoc::described();
    assert(operations_upto(eps, 0) == Map::<(Seq<char>, Method), OperationFacts>::empty());
    assert(operations_upto(eps, 1) =~= map![("/"@, Method::Get) => facts_of(eps[0])]);
    assert(operations_upto(eps, 2) =~= ApiDoc::documented_operations());
}

/// The documented statuses: `200` for `GET /`; `200`, `422`, `500` and `503`
/// for `POST /`.
pub proof fn lemma_documented_statuses()
    ensures
        facts_of(index_endpoint()).statuses == set!["200"@],
        facts_of(evaluate_endpoint()).statuses == set!["200"@, "422"@, "500"@, "503"@],
{
    reveal_with_fuel(statuses, 5);
    assert(index_endpoint().responses.drop_last() =~= Seq::<Documented>::empty());
    assert(statuses(index_endpoint().responses) =~= set!["200"@]);
    let r = evaluate_endpoint().responses;
    assert(r.drop_last().drop_last().drop_last().drop_last() =~= Seq::<Documented>::empty());
    assert(statuses(r) =~= set!["200"@, "422"@, "500"@, "503"@]);
}

/// The statuses under which an `OperationBuilder` holds responses (the keys
/// of its responses map).
pub uninterp spec fn builder_statuses(builder: OperationBuilder) -> Set<Seq<char>>;

/// The operation id, summary and description set on an `OperationBuilder`.
pub uninterp spec fn builder_labels(builder: OperationBuilder) -> Labels;

/// The statuses under which an `Operation` documents responses.
pub uninterp spec fn operation_statuses(operation: Operation) -> Set<Seq<char>>;

/// The operation id, summary and description of an `Operation`.
pub uninterp spec fn operation_labels(operation: Operation) -> Labels;

/// The `GET` and `POST` operations of a `PathItem`.
pub uninterp spec fn item_operations(item: PathItem) -> Map<Method, OperationFacts>;

/// The `GET` and `POST` operations that a `PathsBuilder` holds, under their
/// path and method.
pub uninterp spec fn builder_operations(builder: PathsBuilder) -> Map<(Seq<char>, Method), OperationFacts>;

/// The `GET` and `POST` operations of `Paths`, as for `builder_operations`.
pub uninterp spec fn paths_operations(paths: Paths) -> Map<(Seq<char>, Method), OperationFacts>;

/// The `GET` and `POST` operations of an OpenAPI document's paths, as for
/// `builder_operations`.
pub uninterp spec fn document_operations(doc: OpenApi) -> Map<(Seq<char>, Method), OperationFacts>;

/// The title and version in an OpenAPI document's information block.
pub uninterp spec fn document_info(doc: OpenApi) -> (Seq<char>, Seq<char>);

/// The component schemas of an OpenAPI document (none where it has no
/// components), each under its name.
pub uninterp spec fn document_schemas(doc: OpenApi) -> Map<Seq<char>, SchemaFacts>;

/// The schemas that a `ComponentsBuilder` holds, each under its name.
pub uninterp spec fn components_builder_schemas(builder: ComponentsBuilder) -> Map<Seq<char>, SchemaFacts>;

/// The schemas of `Components`, each under its name.
pub uninterp spec fn components_schemas(components: Components) -> Map<Seq<char>, SchemaFacts>;

/// The names of the properties that an `ObjectBuilder` holds.
pub uninterp spec fn builder_properties(builder: ObjectBuilder) -> Set<Seq<char>>;

/// The required properties listed on an `ObjectBuilder`, in order.
pub uninterp spec fn builder_required(builder: ObjectBuilder) -> Seq<Seq<char>>;

/// The names of the properties of an `Object` schema.
pub uninterp spec fn object_properties(object: Object) -> Set<Seq<char>>;

/// The required properties listed on an `Object` schema, in order.
pub uninterp spec fn object_required(object: Object) -> Seq<Seq<char>>;

/// `utoipa::openapi::OpenApi::new`: the document with `paths`, whose
/// information block (`utoipa::openapi::info::Info::new`) has `title` and
/// `version`. The source stores both as given (`Into` on `Paths` itself).
#[verifier::external_body]
fn openapi_new(title: &str, version: &str, paths: Paths) -> (doc: OpenApi)
    ensures
        document_operations(doc) == paths_operations(paths),
        document_info(doc) == (title@, version@),
        document_schemas(doc) == no_schemas(),
{
    OpenApi::new(utoipa::openapi::info::Info::new(title, version), paths)
}

/// Sets the `components` field of an `OpenApi`; its paths and information
/// block stay.
#[verifier::external_body]
fn openapi_with_components(doc: OpenApi, components: Components) -> (result: OpenApi)
    ensures
        document_operations(result) == document_operations(doc),
        document_info(result) == document_info(doc),
        document_schemas(result) == components_schemas(components),
{
    let mut doc = doc;
    doc.components = Some(components);
    doc
}

/// `utoipa::openapi::path::PathsBuilder::new`: no paths yet (the default, an
/// empty map).
#[verifier::external_body]
fn paths_builder() -> (builder: PathsBuilder)
    ensures
        builder_operations(builder) == no_operations(),
{
    PathsBuilder::new()
}

/// `PathsBuilder::path`: adds `item` under `path`. Where the path is already
/// there, its source merges the operations: one already present under a
/// method stays, the item's other operations are added.
#[verifier::external_body]
fn paths_with(builder: PathsBuilder, path: &str, item: PathItem) -> (result: PathsBuilder)
    ensures
        builder_operations(result) == merged(builder_operations(builder), path@, item_operations(item)),
{
    builder.path(path, item)
}

/// `PathsBuilder::build`: the paths collected, unchanged.
#[verifier::external_body]
fn paths_build(builder: PathsBuilder) -> (paths: Paths)
    ensures
        paths_operations(paths) == builder_operations(builder),
{
    builder.build()
}

/// `utoipa::openapi::path::PathItem::new`: a path item holding `operation`
/// under `method`, and nothing under the other methods.
#[verifier::external_body]
fn path_item(method: Method, operation: Operation) -> (item: PathItem)
    ensures
        item_operations(item) == Map::empty().insert(method, operation_facts(operation)),
{
    let method = match method {
        Method::Get => utoipa::openapi::path::HttpMethod::Get,
        Method::Post => utoipa::openapi::path::HttpMethod::Post,
    };
    PathItem::new(method, operation)
}

/// `utoipa::openapi::path::OperationBuilder::new`: an operation with no
/// responses and no id, summary or description yet (the defaults).
#[verifier::external_body]
fn operation_builder() -> (builder: OperationBuilder)
    ensures
        builder_statuses(builder) == Set::<Seq<char>>::empty(),
        builder_labels(builder) == no_labels(),
{
    OperationBuilder::new()
}

/// `OperationBuilder::operation_id`: sets the id; the rest stays.
#[verifier::external_body]
fn operation_with_id(builder: OperationBuilder, id: &str) -> (result: OperationBuilder)
    ensures
        builder_statuses(result) == builder_statuses(builder),
        builder_labels(result) == (Labels { id: Some(id@), ..builder_labels(builder) }),
{
    builder.operation_id(Some(id))
}

/// `OperationBuilder::summary`: sets the summary; the rest stays.
#[verifier::external_body]
fn operation_with_summary(builder: OperationBuilder, summary: &str) -> (result: OperationBuilder)
    ensures
        builder_statuses(result) == builder_statuses(builder),
        builder_labels(result) == (Labels { summary: Some(summary@), ..builder_labels(builder) }),
{
    builder.summary(Some(summary))
}

/// `OperationBuilder::description`: sets the description; the rest stays.
#[verifier::external_body]
fn operation_with_description(builder: OperationBuilder, description: &str) -> (result: OperationBuilder)
    ensures
        builder_statuses(result) == builder_statuses(builder),
        builder_labels(result) == (Labels { description: Some(description@), ..builder_labels(builder) }),
{
    builder.description(Some(description))
}

/// `OperationBuilder::request_body`: sets the request body; the rest stays.
#[verifier::external_body]
fn operation_with_request_body(builder: OperationBuilder, body: RequestBody) -> (result: OperationBuilder)
    ensures
        builder_statuses(result) == builder_statuses(builder),
        builder_labels(result) == builder_labels(builder),
{
    builder.request_body(Some(body))
}

/// `OperationBuilder::response`: inserts `response` under `status` into the
/// responses map; the rest stays.
#[verifier::external_body]
fn operation_with_response(builder: OperationBuilder, status: &str, response: Response) -> (result: OperationBuilder)
    ensures
        builder_statuses(result) == builder_statuses(builder).insert(status@),
        builder_labels(result) == builder_labels(builder),
{
    builder.response(status, response)
}

/// `OperationBuilder::build`: the operation, with what was set.
#[verifier::external_body]
fn operation_build(builder: OperationBuilder) -> (operation: Operation)
    ensures
        operation_statuses(operation) == builder_statuses(builder),
        operation_labels(operation) == builder_labels(builder),
{
    builder.build()
}

/// `utoipa::openapi::response::ResponseBuilder::new`.
#[verifier::external_body]
fn response_builder() -> ResponseBuilder {
    ResponseBuilder::new()
}

/// `ResponseBuilder::description`.
#[verifier::external_body]
fn response_with_description(builder: ResponseBuilder, description: &str) -> ResponseBuilder {
    builder.description(description)
}

/// `ResponseBuilder::content`: the body under `media_type`.
#[verifier::external_body]
fn response_with_content(builder: ResponseBuilder, media_type: &str, content: Content) -> ResponseBuilder {
    builder.content(media_type, content)
}

/// `ResponseBuilder::build`.
#[verifier::external_body]
fn response_build(builder: ResponseBuilder) -> Response {
    builder.build()
}

/// `utoipa::openapi::schema::Ref::from_schema_name`: a reference to the
/// component schema `name`.
#[verifier::external_body]
fn schema_ref(name: &str) -> Ref {
    Ref::from_schema_name(name)
}

/// `utoipa::openapi::content::Content::new`: content whose schema is `schema`.
#[verifier::external_body]
fn content_of(schema: Ref) -> Content {
    Content::new(Some(schema))
}

/// `utoipa::openapi::request_body::RequestBodyBuilder::new`.
#[verifier::external_body]
fn request_body_builder() -> RequestBodyBuilder {
    RequestBodyBuilder::new()
}

/// `RequestBodyBuilder::content`: the body under `media_type`.
#[verifier::external_body]
fn request_body_content(builder: RequestBodyBuilder, media_type: &str, content: Content) -> RequestBodyBuilder {
    builder.content(media_type, content)
}

/// `RequestBodyBuilder::required`: `Required::True` or `Required::False`.
#[verifier::external_body]
fn request_body_required(builder: RequestBodyBuilder, required: bool) -> RequestBodyBuilder {
    let required = match required {
        true => utoipa::openapi::Required::True,
        false => utoipa::openapi::Required::False,
    };
    builder.required(Some(required))
}

/// `RequestBodyBuilder::build`.
#[verifier::external_body]
fn request_body_build(builder: RequestBodyBuilder) -> RequestBody {
    builder.build()
}

/// `utoipa::openapi::schema::ObjectBuilder::new`: no properties, none required.
#[verifier::external_body]
fn object_builder() -> (builder: ObjectBuilder)
    ensures
        builder_properties(builder) == Set::<Seq<char>>::empty(),
        builder_required(builder) == Seq::<Seq<char>>::empty(),
{
    ObjectBuilder::new()
}

/// `ObjectBuilder::schema_type`: the schema's JSON type; properties stay.
#[verifier::external_body]
fn object_typed(builder: ObjectBuilder, json_type: JsonType) -> (result: ObjectBuilder)
    ensures
        builder_properties(result) == builder_properties(builder),
        builder_required(result) == builder_required(builder),
{
    let json_type = match json_type {
        JsonType::String => utoipa::openapi::schema::Type::String,
        JsonType::Number => utoipa::openapi::schema::Type::Number,
        JsonType::Object => utoipa::openapi::schema::Type::Object,
    };
    builder.schema_type(json_type)
}

/// `ObjectBuilder::format`: a known format; properties stay.
#[verifier::external_body]
fn object_with_format(builder: ObjectBuilder, format: JsonFormat) -> (result: ObjectBuilder)
    ensures
        builder_properties(result) == builder_properties(builder),
        builder_required(result) == builder_required(builder),
{
    let format = match format {
        JsonFormat::Double => utoipa::openapi::schema::KnownFormat::Double,
    };
    builder.format(Some(utoipa::openapi::schema::SchemaFormat::KnownFormat(format)))
}

/// `ObjectBuilder::description`; properties stay.
#[verifier::external_body]
fn object_with_description(builder: ObjectBuilder, description: &str) -> (result: ObjectBuilder)
    ensures
        builder_properties(result) == builder_properties(builder),
        builder_required(result) == builder_required(builder),
{
    builder.description(Some(description))
}

/// `ObjectBuilder::property`, with an object schema: inserts `name` into the
/// properties map.
#[verifier::external_body]
fn object_with_property(builder: ObjectBuilder, name: &str, schema: Object) -> (result: ObjectBuilder)
    ensures
        builder_properties(result) == builder_properties(builder).insert(name@),
        builder_required(result) == builder_required(builder),
{
    builder.property(name, schema)
}

/// `ObjectBuilder::property`, with an array schema: inserts `name` into the
/// properties map.
#[verifier::external_body]
fn object_with_array_property(builder: ObjectBuilder, name: &str, schema: Array) -> (result: ObjectBuilder)
    ensures
        builder_properties(result) == builder_properties(builder).insert(name@),
        builder_required(result) == builder_required(builder),
{
    builder.property(name, schema)
}

/// `ObjectBuilder::required`: pushes `name` onto the required list.
#[verifier::external_body]
fn object_with_required(builder: ObjectBuilder, name: &str) -> (result: ObjectBuilder)
    ensures
        builder_properties(result) == builder_properties(builder),
        builder_required(result) == builder_required(builder).push(name@),
{
    builder.required(name)
}

/// `ObjectBuilder::build`: the schema, with what was set.
#[verifier::external_body]
fn object_build(builder: ObjectBuilder) -> (object: Object)
    ensures
        object_properties(object) == builder_properties(builder),
        object_required(object) == builder_required(builder),
{
    builder.build()
}

/// `utoipa::openapi::schema::Array::new`: an array of `items`.
#[verifier::external_body]
fn array_of(items: Object) -> Array {
    Array::new(items)
}

/// `utoipa::openapi::schema::ComponentsBuilder::new`: no schemas yet.
#[verifier::external_body]
fn components_builder() -> (builder: ComponentsBuilder)
    ensures
        components_builder_schemas(builder) == no_schemas(),
{
    ComponentsBuilder::new()
}

/// `ComponentsBuilder::schema`: inserts `schema` under `name` into the
/// schemas map.
#[verifier::external_body]
fn components_schema(builder: ComponentsBuilder, name: &str, schema: Object) -> (result: ComponentsBuilder)
    ensures
        components_builder_schemas(result) == components_builder_schemas(builder).insert(
            name@,
            object_facts(schema),
        ),
{
    builder.schema(name, schema)
}

/// `ComponentsBuilder::build`: the schemas collected, unchanged.
#[verifier::external_body]
fn components_build(builder: ComponentsBuilder) -> (components: Components)
    ensures
        components_schemas(components) == components_builder_schemas(builder),
{
    builder.build()
}

} // verus!
