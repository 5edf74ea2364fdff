//! The remote protocol: what an entity and a component are, how requests are framed and
//! responses read, and what the two pollers decide between their network calls.

use crate::json::{lemma_array_view, lemma_object_view, Json, JsonNumber, JsonValue, Number};
use crate::model::{Message, MessageView};
use crate::style::{Line, LineView, Span, SpanView, Style};
use crate::text::{decimal, push_decimal, u64_to_string};
use vstd::string::StringExecFns;
use crate::sorting::{
    lemma_insertion_point_unique, lemma_lex_le_total, lemma_lex_le_transitive, lex_le, stable_sort,
    str_le, total, transitive,
};
use vstd::prelude::*;

verus! {

/// An entity of the remote world: its identifier and, where it has one, its name.
#[derive(Debug, PartialEq, Eq)]
pub struct EntityMeta {
    pub id: u64,
    pub name: Option<String>,
}

/// The mathematical value of an [`EntityMeta`].
pub struct Entity {
    pub id: u64,
    pub name: Option<Seq<char>>,
}

impl View for EntityMeta {
    type V = Entity;

    open spec fn view(&self) -> Entity {
        Entity {
            id: self.id,
            name: match self.name {
                Some(name) => Some(name@),
                None => None,
            },
        }
    }
}

impl DeepView for EntityMeta {
    type V = Entity;

    open spec fn deep_view(&self) -> Entity {
        self@
    }
}

/// What stands for the name of an entity that has none.
pub open spec fn unnamed() -> Seq<char> {
    "Entity"@
}

impl Entity {
    /// The name under which the entity is listed.
    pub open spec fn display_name(self) -> Seq<char> {
        match self.name {
            Some(name) => name,
            None => unnamed(),
        }
    }

    /// The line of the entity in the list: its name in bold, a blank, its identifier dim.
    pub open spec fn title(self) -> LineView {
        LineView {
            spans: seq![
                SpanView {
                    content: self.display_name(),
                    style: Style { bold: true, ..Style::plain() },
                },
                SpanView { content: " "@, style: Style::plain() },
                SpanView {
                    content: decimal(self.id as nat),
                    style: Style { dim: true, ..Style::plain() },
                },
            ],
            style: Style::plain(),
        }
    }
}

impl EntityMeta {
    /// The line of the entity in the list.
    pub fn title(&self) -> (line: Line)
        ensures
            line@ == self@.title(),
    {
        let mut spans: Vec<Span> = Vec::new();
        spans.push(Span::styled(self.name(), Style::new().bold()));
        spans.push(Span::raw(" ".to_owned()));
        spans.push(Span::styled(u64_to_string(self.id), Style::new().dim()));
        assert(spans.deep_view() =~= self@.title().spans);
        Line::from_spans(spans)
    }

    /// The name under which the entity is listed: its own, or `Entity` if it has none.
    pub fn name(&self) -> (name: String)
        ensures
            name@ == self@.display_name(),
    {
        match &self.name {
            Some(name) => name.clone(),
            None => "Entity".to_owned(),
        }
    }
}

/// A component of an entity: the full path of its type and its value.
#[derive(Debug, PartialEq, Eq)]
pub struct ComponentRecord {
    pub fully_qualified_name: String,
    pub value: JsonValue,
}

/// The mathematical value of a [`ComponentRecord`].
pub struct Component {
    pub name: Seq<char>,
    pub value: Json,
}

impl View for ComponentRecord {
    type V = Component;

    open spec fn view(&self) -> Component {
        Component { name: self.fully_qualified_name@, value: self.value@ }
    }
}

impl DeepView for ComponentRecord {
    type V = Component;

    open spec fn deep_view(&self) -> Component {
        self@
    }
}

/// The order in which entities are listed: by identifier.
pub open spec fn by_id() -> spec_fn(Entity, Entity) -> bool {
    |a: Entity, b: Entity| a.id <= b.id
}

/// The order in which components are listed: by the path of their type, as strings are ordered.
pub open spec fn by_name() -> spec_fn(Component, Component) -> bool {
    |a: Component, b: Component| lex_le(a.name, b.name)
}

/// Both listing orders order any two items, and are transitive.
pub proof fn lemma_listing_orders()
    ensures
        total(by_id()),
        transitive(by_id()),
        total(by_name()),
        transitive(by_name()),
{
    assert forall|a: Component, b: Component| #[trigger] by_name()(a, b) || by_name()(b, a) by {
        lemma_lex_le_total(a.name, b.name);
    }
    assert forall|a: Component, b: Component, c: Component| #[trigger]
        by_name()(a, b) && #[trigger] by_name()(b, c) implies by_name()(a, c) by {
        lemma_lex_le_transitive(a.name, b.name, c.name);
    }
}

/// Sorts entities by identifier; entities with one identifier keep their order.
pub fn sort_entities(entities: Vec<EntityMeta>) -> (sorted: Vec<EntityMeta>)
    ensures
        sorted.deep_view() == stable_sort(entities.deep_view(), by_id()),
{
    let ghost all = entities.deep_view();
    let mut rest = entities;
    let mut sorted: Vec<EntityMeta> = Vec::new();
    loop
        invariant
            rest.len() <= all.len(),
            rest.deep_view() == all.take(rest.len() as int),
            sorted.deep_view() == stable_sort(all.skip(rest.len() as int), by_id()),
        ensures
            sorted.deep_view() == stable_sort(all, by_id()),
        decreases rest.len(),
    {
        let ghost before = rest.deep_view();
        let ghost tail = sorted.deep_view();
        match rest.pop() {
            None => {
                assert(all.skip(0) =~= all);
                break ;
            },
            Some(entity) => {
                let mut at: usize = 0;
                while at < sorted.len() && !(entity.id <= sorted[at].id)
                    invariant
                        at <= sorted.len(),
                        sorted.deep_view() == tail,
                        forall|j: int| 0 <= j < at ==> !by_id()(entity@, #[trigger] tail[j]),
                    decreases sorted.len() - at,
                {
                    at = at + 1;
                }
                proof {
                    lemma_insertion_point_unique(tail, entity@, by_id(), at as int);
                    let n = rest.len() as int;
                    assert(before[n] == entity@);
                    assert(all.skip(n).drop_first() =~= all.skip(n + 1));
                }
                sorted.insert(at, entity);
            },
        }
    }
    sorted
}

/// Sorts components by the path of their type; components with one path keep their order.
pub fn sort_components(components: Vec<ComponentRecord>) -> (sorted: Vec<ComponentRecord>)
    ensures
        sorted.deep_view() == stable_sort(components.deep_view(), by_name()),
{
    let ghost all = components.deep_view();
    let mut rest = components;
    let mut sorted: Vec<ComponentRecord> = Vec::new();
    loop
        invariant
            rest.len() <= all.len(),
            rest.deep_view() == all.take(rest.len() as int),
            sorted.deep_view() == stable_sort(all.skip(rest.len() as int), by_name()),
        ensures
            sorted.deep_view() == stable_sort(all, by_name()),
        decreases rest.len(),
    {
        let ghost before = rest.deep_view();
        let ghost tail = sorted.deep_view();
        match rest.pop() {
            None => {
                assert(all.skip(0) =~= all);
                break ;
            },
            Some(component) => {
                let mut at: usize = 0;
                while at < sorted.len() && !str_le(
                    component.fully_qualified_name.as_str(),
                    sorted[at].fully_qualified_name.as_str(),
                )
                    invariant
                        at <= sorted.len(),
                        sorted.deep_view() == tail,
                        forall|j: int|
                            0 <= j < at ==> !by_name()(component@, #[trigger] tail[j]),
                    decreases sorted.len() - at,
                {
                    at = at + 1;
                }
                proof {
                    lemma_insertion_point_unique(tail, component@, by_name(), at as int);
                    let n = rest.len() as int;
                    assert(before[n] == component@);
                    assert(all.skip(n).drop_first() =~= all.skip(n + 1));
                }
                sorted.insert(at, component);
            },
        }
    }
    sorted
}

/// The parameters of `bevy/get`: the components to read from an entity. A strict read fails as
/// a whole if one component cannot be read; a lenient one reports such components apart.
#[derive(Debug, PartialEq, Eq)]
pub struct BrpGetParams {
    pub entity: u64,
    pub components: Vec<String>,
    pub strict: bool,
}

/// The parameters of `bevy/list`: the entity whose components are to be named.
#[derive(Debug, PartialEq, Eq)]
pub struct BrpListParams {
    pub entity: u64,
}

/// The parameters of `bevy/destroy`: the entity to destroy.
#[derive(Debug, PartialEq, Eq)]
pub struct BrpDestroyParams {
    pub entity: u64,
}

/// The parameters of `bevy/remove`: the components to take off an entity.
#[derive(Debug, PartialEq, Eq)]
pub struct BrpRemoveParams {
    pub entity: u64,
    pub components: Vec<String>,
}

/// The parameters of `bevy/spawn`: the components of the entity to make.
#[derive(Debug, PartialEq, Eq)]
pub struct BrpSpawnParams {
    pub components: Vec<ComponentRecord>,
}

/// The parameters of `bevy/insert`: the components to put on an entity.
#[derive(Debug, PartialEq, Eq)]
pub struct BrpInsertParams {
    pub entity: u64,
    pub components: Vec<ComponentRecord>,
}

/// The parameters of `bevy/reparent`: the entities to move, and their new parent. Without a
/// parent they are moved to the top.
#[derive(Debug, PartialEq, Eq)]
pub struct BrpReparentParams {
    pub entities: Vec<u64>,
    pub parent: Option<u64>,
}

/// What a query reads of each entity that it selects.
#[derive(Debug, PartialEq, Eq)]
pub struct BrpQuery {
    /// Components that an entity must have, and whose values are read.
    pub components: Vec<String>,
    /// Components whose values are read where an entity has them.
    pub option: Vec<String>,
    /// Components of which only the presence is reported.
    pub has: Vec<String>,
}

/// Which entities a query selects.
#[derive(Debug, PartialEq, Eq)]
pub struct BrpQueryFilter {
    /// Components that an entity must have.
    pub with: Vec<String>,
    /// Components that an entity must not have.
    pub without: Vec<String>,
}

/// The parameters of `bevy/query`.
#[derive(Debug, PartialEq, Eq)]
pub struct BrpQueryParams {
    pub data: BrpQuery,
    pub filter: BrpQueryFilter,
}

/// A request of the remote protocol, before it is framed.
#[derive(Debug, PartialEq, Eq)]
pub struct BrpRequest {
    pub method: String,
    pub id: Option<JsonValue>,
    pub params: Option<JsonValue>,
}

/// An array of strings.
pub open spec fn string_array(items: Seq<Seq<char>>) -> Json {
    Json::Array(Seq::new(items.len(), |i: int| Json::String(items[i])))
}

/// A member that is left out while its list is empty.
pub open spec fn list_member(name: Seq<char>, items: Seq<Seq<char>>) -> Seq<(Seq<char>, Json)> {
    if items.len() == 0 {
        Seq::empty()
    } else {
        seq![(name, string_array(items))]
    }
}

/// A member that is left out while its value is missing.
pub open spec fn optional_member(name: Seq<char>, value: Option<Json>) -> Seq<(Seq<char>, Json)> {
    match value {
        Some(value) => seq![(name, value)],
        None => Seq::empty(),
    }
}

/// The parameters that name one entity.
pub open spec fn entity_params(entity: u64) -> Json {
    Json::Object(seq![("entity"@, Json::Number(Number::PosInt(entity)))])
}

/// The parameters that name one entity and some of its components.
pub open spec fn components_params(entity: u64, components: Seq<Seq<char>>) -> Json {
    Json::Object(
        seq![
            ("entity"@, Json::Number(Number::PosInt(entity))),
            ("components"@, string_array(components)),
        ],
    )
}

/// An object with one member for each component, named as the component and holding its value.
pub open spec fn records_object(components: Seq<Component>) -> Json {
    Json::Object(Seq::new(components.len(), |i: int| (components[i].name, components[i].value)))
}

/// An array of entities.
pub open spec fn entity_array(entities: Seq<u64>) -> Json {
    Json::Array(Seq::new(entities.len(), |i: int| Json::Number(Number::PosInt(entities[i]))))
}

/// The parameters of `bevy/spawn`.
pub open spec fn spawn_params(components: Seq<Component>) -> Json {
    Json::Object(seq![("components"@, records_object(components))])
}

/// The parameters of `bevy/insert`.
pub open spec fn insert_params(entity: u64, components: Seq<Component>) -> Json {
    Json::Object(
        seq![
            ("entity"@, Json::Number(Number::PosInt(entity))),
            ("components"@, records_object(components)),
        ],
    )
}

/// The parameters of `bevy/reparent`; the parent is left out where there is none.
pub open spec fn reparent_params(entities: Seq<u64>, parent: Option<u64>) -> Json {
    Json::Object(
        seq![("entities"@, entity_array(entities))] + optional_member(
            "parent"@,
            match parent {
                Some(parent) => Some(Json::Number(Number::PosInt(parent))),
                None => None,
            },
        ),
    )
}

/// The parameters of `bevy/get`.
pub open spec fn get_params(entity: u64, components: Seq<Seq<char>>, strict: bool) -> Json {
    Json::Object(
        seq![
            ("entity"@, Json::Number(Number::PosInt(entity))),
            ("components"@, string_array(components)),
            ("strict"@, Json::Bool(strict)),
        ],
    )
}

/// The parameters of `bevy/query`; a list that is empty is left out.
pub open spec fn query_params(
    components: Seq<Seq<char>>,
    option: Seq<Seq<char>>,
    has: Seq<Seq<char>>,
    with: Seq<Seq<char>>,
    without: Seq<Seq<char>>,
) -> Json {
    Json::Object(
        seq![
            (
                "data"@,
                Json::Object(
                    list_member("components"@, components) + list_member("option"@, option)
                        + list_member("has"@, has),
                ),
            ),
            (
                "filter"@,
                Json::Object(list_member("with"@, with) + list_member("without"@, without)),
            ),
        ],
    )
}

/// The frame of a request: the protocol version, the method, and the identifier and the
/// parameters where there are any.
pub open spec fn envelope(method: Seq<char>, id: Option<Json>, params: Option<Json>) -> Json {
    Json::Object(
        seq![("jsonrpc"@, Json::String("2.0"@)), ("method"@, Json::String(method))]
            + optional_member("id"@, id) + optional_member("params"@, params),
    )
}

/// The view of an optional value.
pub open spec fn optional_json(value: Option<JsonValue>) -> Option<Json> {
    match value {
        Some(value) => Some(value@),
        None => None,
    }
}

fn strings_to_json(items: &Vec<String>) -> (array: JsonValue)
    ensures
        array@ == string_array(items.deep_view()),
{
    let mut out: Vec<JsonValue> = Vec::new();
    let mut i: usize = 0;
    while i < items.len()
        invariant
            i <= items.len(),
            out.len() == i,
            forall|j: int| 0 <= j < i ==> out[j]@ == Json::String(items[j]@),
        decreases items.len() - i,
    {
        out.push(JsonValue::String(items[i].clone()));
        i = i + 1;
    }
    proof {
        lemma_array_view(out);
        assert(out.deep_view() =~= string_array(items.deep_view())->Array_0);
    }
    JsonValue::Array(out)
}

fn push_list_member(members: &mut Vec<(String, JsonValue)>, name: &str, items: &Vec<String>)
    ensures
        final(members).deep_view() == old(members).deep_view() + list_member(
            name@,
            items.deep_view(),
        ),
{
    if items.len() > 0 {
        let array = strings_to_json(items);
        members.push((name.to_owned(), array));
    }
}

fn push_member(members: &mut Vec<(String, JsonValue)>, name: &str, value: JsonValue)
    ensures
        final(members).deep_view() == old(members).deep_view().push((name@, value@)),
{
    members.push((name.to_owned(), value));
}

fn object(members: Vec<(String, JsonValue)>) -> (value: JsonValue)
    ensures
        value@ == Json::Object(members.deep_view()),
{
    proof {
        lemma_object_view(members);
    }
    JsonValue::Object(members)
}

fn no_members() -> (members: Vec<(String, JsonValue)>)
    ensures
        members.deep_view() == Seq::<(Seq<char>, Json)>::empty(),
{
    let members: Vec<(String, JsonValue)> = Vec::new();
    members
}

impl BrpRequest {
    /// The request as it goes over the wire.
    pub fn to_json(self) -> (json: JsonValue)
        ensures
            json@ == envelope(self.method@, optional_json(self.id), optional_json(self.params)),
    {
        let mut members = no_members();
        push_member(&mut members, "jsonrpc", JsonValue::String("2.0".to_owned()));
        push_member(&mut members, "method", JsonValue::String(self.method));
        match self.id {
            Some(id) => {
                push_member(&mut members, "id", id);
            },
            None => {},
        }
        match self.params {
            Some(params) => {
                push_member(&mut members, "params", params);
            },
            None => {},
        }
        let json = object(members);
        assert(json@->Object_0 =~= envelope(
            self.method@,
            optional_json(self.id),
            optional_json(self.params),
        )->Object_0);
        json
    }
}

fn entity_number(entity: u64) -> (json: JsonValue)
    ensures
        json@ == Json::Number(Number::PosInt(entity)),
{
    JsonValue::Number(JsonNumber::PosInt(entity))
}

fn request(method: &str, params: JsonValue) -> (json: JsonValue)
    ensures
        json@ == envelope(method@, None, Some(params@)),
{
    BrpRequest { method: method.to_owned(), id: None, params: Some(params) }.to_json()
}

/// The request that reads components of an entity.
pub fn get_request(params: &BrpGetParams) -> (json: JsonValue)
    ensures
        json@ == envelope(
            "bevy/get"@,
            None,
            Some(get_params(params.entity, params.components.deep_view(), params.strict)),
        ),
{
    let mut members = no_members();
    push_member(&mut members, "entity", entity_number(params.entity));
    push_member(&mut members, "components", strings_to_json(&params.components));
    push_member(&mut members, "strict", JsonValue::Bool(params.strict));
    let body = object(members);
    assert(body@->Object_0 =~= get_params(
        params.entity,
        params.components.deep_view(),
        params.strict,
    )->Object_0);
    request("bevy/get", body)
}

/// The request that selects entities and reads components of each.
pub fn query_request(params: &BrpQueryParams) -> (json: JsonValue)
    ensures
        json@ == envelope(
            "bevy/query"@,
            None,
            Some(
                query_params(
                    params.data.components.deep_view(),
                    params.data.option.deep_view(),
                    params.data.has.deep_view(),
                    params.filter.with.deep_view(),
                    params.filter.without.deep_view(),
                ),
            ),
        ),
{
    let mut data = no_members();
    push_list_member(&mut data, "components", &params.data.components);
    push_list_member(&mut data, "option", &params.data.option);
    push_list_member(&mut data, "has", &params.data.has);
    let mut filter = no_members();
    push_list_member(&mut filter, "with", &params.filter.with);
    push_list_member(&mut filter, "without", &params.filter.without);
    let mut members = no_members();
    push_member(&mut members, "data", object(data));
    push_member(&mut members, "filter", object(filter));
    let body = object(members);
    assert(body@->Object_0 =~= query_params(
        params.data.components.deep_view(),
        params.data.option.deep_view(),
        params.data.has.deep_view(),
        params.filter.with.deep_view(),
        params.filter.without.deep_view(),
    )->Object_0);
    request("bevy/query", body)
}

/// The request that destroys an entity.
pub fn destroy_request(params: &BrpDestroyParams) -> (json: JsonValue)
    ensures
        json@ == envelope("bevy/destroy"@, None, Some(entity_params(params.entity))),
{
    let mut members = no_members();
    push_member(&mut members, "entity", entity_number(params.entity));
    let body = object(members);
    request("bevy/destroy", body)
}

/// The request that names the components of an entity.
pub fn list_request(params: &BrpListParams) -> (json: JsonValue)
    ensures
        json@ == envelope("bevy/list"@, None, Some(entity_params(params.entity))),
{
    let mut members = no_members();
    push_member(&mut members, "entity", entity_number(params.entity));
    let body = object(members);
    request("bevy/list", body)
}

/// The request that takes components off an entity.
pub fn remove_request(params: &BrpRemoveParams) -> (json: JsonValue)
    ensures
        json@ == envelope(
            "bevy/remove"@,
            None,
            Some(components_params(params.entity, params.components.deep_view())),
        ),
{
    let mut members = no_members();
    push_member(&mut members, "entity", entity_number(params.entity));
    push_member(&mut members, "components", strings_to_json(&params.components));
    let body = object(members);
    assert(body@->Object_0 =~= components_params(
        params.entity,
        params.components.deep_view(),
    )->Object_0);
    request("bevy/remove", body)
}

fn records_to_json(components: &Vec<ComponentRecord>) -> (json: JsonValue)
    ensures
        json@ == records_object(components.deep_view()),
{
    let mut members: Vec<(String, JsonValue)> = Vec::new();
    let mut i: usize = 0;
    while i < components.len()
        invariant
            i <= components.len(),
            members.len() == i,
            forall|j: int|
                0 <= j < i ==> members[j].0@ == components[j].fully_qualified_name@
                    && members[j].1@ == components[j].value@,
        decreases components.len() - i,
    {
        members.push((components[i].fully_qualified_name.clone(), components[i].value.clone()));
        i = i + 1;
    }
    assert(members.deep_view() =~= records_object(components.deep_view())->Object_0);
    object(members)
}

/// The request that makes an entity with the given components.
pub fn spawn_request(params: &BrpSpawnParams) -> (json: JsonValue)
    ensures
        json@ == envelope(
            "bevy/spawn"@,
            None,
            Some(spawn_params(params.components.deep_view())),
        ),
{
    let mut members = no_members();
    push_member(&mut members, "components", records_to_json(&params.components));
    let body = object(members);
    request("bevy/spawn", body)
}

/// The request that puts components on an entity.
pub fn insert_request(params: &BrpInsertParams) -> (json: JsonValue)
    ensures
        json@ == envelope(
            "bevy/insert"@,
            None,
            Some(insert_params(params.entity, params.components.deep_view())),
        ),
{
    let mut members = no_members();
    push_member(&mut members, "entity", entity_number(params.entity));
    push_member(&mut members, "components", records_to_json(&params.components));
    let body = object(members);
    assert(body@->Object_0 =~= insert_params(
        params.entity,
        params.components.deep_view(),
    )->Object_0);
    request("bevy/insert", body)
}

/// The request that moves entities under a new parent.
pub fn reparent_request(params: &BrpReparentParams) -> (json: JsonValue)
    ensures
        json@ == envelope(
            "bevy/reparent"@,
            None,
            Some(reparent_params(params.entities@, params.parent)),
        ),
{
    let mut entities: Vec<JsonValue> = Vec::new();
    let mut i: usize = 0;
    while i < params.entities.len()
        invariant
            i <= params.entities.len(),
            entities.len() == i,
            forall|j: int|
                0 <= j < i ==> entities[j]@ == Json::Number(Number::PosInt(params.entities[j])),
        decreases params.entities.len() - i,
    {
        entities.push(entity_number(params.entities[i]));
        i = i + 1;
    }
    proof {
        lemma_array_view(entities);
        assert(entities.deep_view() =~= entity_array(params.entities@)->Array_0);
    }
    let mut members = no_members();
    push_member(&mut members, "entities", JsonValue::Array(entities));
    match params.parent {
        Some(parent) => {
            push_member(&mut members, "parent", entity_number(parent));
        },
        None => {},
    }
    let body = object(members);
    assert(body@->Object_0 =~= reparent_params(params.entities@, params.parent)->Object_0);
    request("bevy/reparent", body)
}

/// An error that the server reports.
#[derive(Debug, PartialEq, Eq)]
pub struct BrpError {
    pub code: i64,
    pub message: String,
    pub data: Option<JsonValue>,
}

/// What a response carries: a result, or an error.
#[derive(Debug, PartialEq, Eq)]
pub enum BrpPayload {
    Result(JsonValue),
    Error(BrpError),
}

/// A response of the remote protocol.
#[derive(Debug, PartialEq, Eq)]
pub struct BrpResponse {
    pub payload: BrpPayload,
}

/// The mathematical value of a [`BrpError`].
pub struct ErrorView {
    pub code: i64,
    pub message: Seq<char>,
    pub data: Option<Json>,
}

/// The mathematical value of a [`BrpPayload`].
pub enum Payload {
    Result(Json),
    Error(ErrorView),
}

impl View for BrpError {
    type V = ErrorView;

    open spec fn view(&self) -> ErrorView {
        ErrorView { code: self.code, message: self.message@, data: optional_json(self.data) }
    }
}

impl View for BrpPayload {
    type V = Payload;

    open spec fn view(&self) -> Payload {
        match self {
            BrpPayload::Result(result) => Payload::Result(result@),
            BrpPayload::Error(error) => Payload::Error(error@),
        }
    }
}

impl View for BrpResponse {
    type V = Payload;

    open spec fn view(&self) -> Payload {
        self.payload@
    }
}

/// The text could not be read as JSON.
pub const PARSE_ERROR: i64 = -32700;

/// The request is no valid request.
pub const INVALID_REQUEST: i64 = -32600;

/// The server knows no such method.
pub const METHOD_NOT_FOUND: i64 = -32601;

/// The parameters do not fit the method.
pub const INVALID_PARAMS: i64 = -32602;

/// The server failed on its own account.
pub const INTERNAL_ERROR: i64 = -32603;

/// The world holds no such entity.
pub const ENTITY_NOT_FOUND: i64 = -23401;

/// A component could not be read or written.
pub const COMPONENT_ERROR: i64 = -23402;

/// The entity has no such component.
pub const COMPONENT_NOT_PRESENT: i64 = -23403;

/// An entity cannot be made its own parent.
pub const SELF_REPARENT: i64 = -23404;

/// The errors that the protocol names.
#[derive(Debug, Clone, Copy, PartialEq, Eq, Structural)]
pub enum ErrorKind {
    ParseError,
    InvalidRequest,
    MethodNotFound,
    InvalidParams,
    InternalError,
    EntityNotFound,
    ComponentError,
    ComponentNotPresent,
    SelfReparent,
    /// A code that the protocol does not name.
    Other,
}

/// The error that a code stands for.
pub open spec fn error_kind(code: i64) -> ErrorKind {
    if code == PARSE_ERROR {
        ErrorKind::ParseError
    } else if code == INVALID_REQUEST {
        ErrorKind::InvalidRequest
    } else if code == METHOD_NOT_FOUND {
        ErrorKind::MethodNotFound
    } else if code == INVALID_PARAMS {
        ErrorKind::InvalidParams
    } else if code == INTERNAL_ERROR {
        ErrorKind::InternalError
    } else if code == ENTITY_NOT_FOUND {
        ErrorKind::EntityNotFound
    } else if code == COMPONENT_ERROR {
        ErrorKind::ComponentError
    } else if code == COMPONENT_NOT_PRESENT {
        ErrorKind::ComponentNotPresent
    } else if code == SELF_REPARENT {
        ErrorKind::SelfReparent
    } else {
        ErrorKind::Other
    }
}

impl BrpError {
    /// The error that the code stands for.
    pub fn kind(&self) -> (kind: ErrorKind)
        ensures
            kind == error_kind(self.code),
    {
        let code = self.code;
        if code == PARSE_ERROR {
            ErrorKind::ParseError
        } else if code == INVALID_REQUEST {
            ErrorKind::InvalidRequest
        } else if code == METHOD_NOT_FOUND {
            ErrorKind::MethodNotFound
        } else if code == INVALID_PARAMS {
            ErrorKind::InvalidParams
        } else if code == INTERNAL_ERROR {
            ErrorKind::InternalError
        } else if code == ENTITY_NOT_FOUND {
            ErrorKind::EntityNotFound
        } else if code == COMPONENT_ERROR {
            ErrorKind::ComponentError
        } else if code == COMPONENT_NOT_PRESENT {
            ErrorKind::ComponentNotPresent
        } else if code == SELF_REPARENT {
            ErrorKind::SelfReparent
        } else {
            ErrorKind::Other
        }
    }
}

/// The error that an error object reports, if it has an integer code and a message.
pub open spec fn decode_error(json: Json) -> Option<ErrorView> {
    match (json.member("code"@), json.member("message"@)) {
        (Some(code), Some(Json::String(message))) => match code.integer() {
            Some(code) => Some(ErrorView { code, message, data: json.member("data"@) }),
            None => None,
        },
        _ => None,
    }
}

/// What a response carries, if it is framed as one: an object with either a result or an error
/// that can be read.
pub open spec fn decode_payload(body: Json) -> Option<Payload> {
    match (body.member("result"@), body.member("error"@)) {
        (Some(result), None) => Some(Payload::Result(result)),
        (None, Some(error)) => match decode_error(error) {
            Some(error) => Some(Payload::Error(error)),
            None => None,
        },
        _ => None,
    }
}

/// The result of a call, if there is one. A call that did not come through, a body that is no
/// response and an error of the server all count as a failed communication.
pub open spec fn call_result(response: Option<Json>) -> Option<Json> {
    match response {
        Some(body) => match decode_payload(body) {
            Some(Payload::Result(result)) => Some(result),
            _ => None,
        },
        None => None,
    }
}

impl BrpResponse {
    /// Reads a response from its body.
    pub fn from_json(body: &JsonValue) -> (response: Option<Self>)
        ensures
            match response {
                Some(response) => decode_payload(body@) == Some(response@),
                None => decode_payload(body@) is None,
            },
    {
        match (body.get("result"), body.get("error")) {
            (Some(result), None) => Some(
                BrpResponse { payload: BrpPayload::Result(result.clone()) },
            ),
            (None, Some(error)) => {
                match (error.get("code"), error.get("message")) {
                    (Some(code), Some(message)) => {
                        match (code.as_i64(), message.as_str()) {
                            (Some(code), Some(message)) => {
                                let data = match error.get("data") {
                                    Some(data) => Some(data.clone()),
                                    None => None,
                                };
                                Some(
                                    BrpResponse {
                                        payload: BrpPayload::Error(
                                            BrpError { code, message: message.to_owned(), data },
                                        ),
                                    },
                                )
                            },
                            _ => None,
                        }
                    },
                    _ => None,
                }
            },
            _ => None,
        }
    }
}

/// The result in the body of a response, if the call came through and the body carries one.
pub fn response_result<'a>(response: Option<&'a JsonValue>) -> (result: Option<&'a JsonValue>)
    ensures
        match result {
            Some(result) => call_result(optional_body(response)) == Some(result@),
            None => call_result(optional_body(response)) is None,
        },
{
    match response {
        Some(body) => match (body.get("result"), body.get("error")) {
            (Some(result), None) => Some(result),
            _ => None,
        },
        None => None,
    }
}

/// The view of an optional body.
pub open spec fn optional_body(response: Option<&JsonValue>) -> Option<Json> {
    match response {
        Some(body) => Some(body@),
        None => None,
    }
}

/// The strings of an array of strings.
pub open spec fn decode_strings(items: Seq<Json>) -> Option<Seq<Seq<char>>>
    decreases items.len(),
{
    if items.len() == 0 {
        Some(Seq::empty())
    } else {
        match (decode_strings(items.drop_last()), items.last()) {
            (Some(front), Json::String(text)) => Some(front.push(text)),
            _ => None,
        }
    }
}

/// The component names that `bevy/list` answers with: an array of strings.
pub open spec fn decode_names(result: Json) -> Option<Seq<Seq<char>>> {
    match result {
        Json::Array(items) => decode_strings(items),
        _ => None,
    }
}

/// The components behind the members of an object, in the order of the members.
pub open spec fn records_of(members: Seq<(Seq<char>, Json)>) -> Seq<Component> {
    Seq::new(members.len(), |i: int| Component { name: members[i].0, value: members[i].1 })
}

/// The components that a lenient `bevy/get` answers with: those under `components`, beside the
/// object of `errors`.
pub open spec fn decode_components(result: Json) -> Option<Seq<Component>> {
    match (result.member("components"@), result.member("errors"@)) {
        (Some(Json::Object(members)), Some(Json::Object(_))) => Some(records_of(members)),
        _ => None,
    }
}

/// The entity that `bevy/spawn` answers with.
pub open spec fn decode_spawned(result: Json) -> Option<u64> {
    match result.member("entity"@) {
        Some(Json::Number(Number::PosInt(entity))) => Some(entity),
        _ => None,
    }
}

/// Reads the answer to `bevy/spawn`.
pub fn read_spawned(result: &JsonValue) -> (entity: Option<u64>)
    ensures
        entity == decode_spawned(result@),
{
    match result.get("entity") {
        Some(entity) => entity.as_u64(),
        None => None,
    }
}

/// One row of the answer to `bevy/query`.
#[derive(Debug, PartialEq, Eq)]
pub struct QueryRow {
    pub entity: u64,
    /// The components that were read, by name: an object.
    pub components: JsonValue,
    /// The components whose presence was asked for, by name: an object, if the row has one.
    pub has: Option<JsonValue>,
}

/// The mathematical value of a [`QueryRow`].
pub struct Row {
    pub entity: u64,
    pub components: Json,
    pub has: Option<Json>,
}

impl View for QueryRow {
    type V = Row;

    open spec fn view(&self) -> Row {
        Row { entity: self.entity, components: self.components@, has: optional_json(self.has) }
    }
}

impl DeepView for QueryRow {
    type V = Row;

    open spec fn deep_view(&self) -> Row {
        self@
    }
}

/// A row of the answer to `bevy/query`: an entity, an object of components, and maybe an object
/// of presences.
pub open spec fn decode_row(json: Json) -> Option<Row> {
    match (json.member("entity"@), json.member("components"@)) {
        (Some(Json::Number(Number::PosInt(entity))), Some(Json::Object(components))) => match json.member(
            "has"@,
        ) {
            Some(Json::Object(has)) => Some(
                Row {
                    entity,
                    components: Json::Object(components),
                    has: Some(Json::Object(has)),
                },
            ),
            None => Some(Row { entity, components: Json::Object(components), has: None }),
            _ => None,
        },
        _ => None,
    }
}

/// The rows of an array of rows.
pub open spec fn decode_row_items(items: Seq<Json>) -> Option<Seq<Row>>
    decreases items.len(),
{
    if items.len() == 0 {
        Some(Seq::empty())
    } else {
        match (decode_row_items(items.drop_last()), decode_row(items.last())) {
            (Some(front), Some(row)) => Some(front.push(row)),
            _ => None,
        }
    }
}

/// The rows that `bevy/query` answers with.
pub open spec fn decode_rows(result: Json) -> Option<Seq<Row>> {
    match result {
        Json::Array(items) => decode_row_items(items),
        _ => None,
    }
}

/// The views of optional strings.
pub open spec fn optional_names(names: Option<Vec<String>>) -> Option<Seq<Seq<char>>> {
    match names {
        Some(names) => Some(names.deep_view()),
        None => None,
    }
}

/// The views of optional components.
pub open spec fn optional_records(records: Option<Vec<ComponentRecord>>) -> Option<Seq<Component>> {
    match records {
        Some(records) => Some(records.deep_view()),
        None => None,
    }
}

/// The views of optional rows.
pub open spec fn optional_rows(rows: Option<Vec<QueryRow>>) -> Option<Seq<Row>> {
    match rows {
        Some(rows) => Some(rows.deep_view()),
        None => None,
    }
}

/// Reads the answer to `bevy/list`.
pub fn read_names(result: &JsonValue) -> (names: Option<Vec<String>>)
    ensures
        optional_names(names) == decode_names(result@),
{
    match result.as_array() {
        Some(items) => {
            let ghost views = items.deep_view();
            let mut names: Vec<String> = Vec::new();
            let mut i: usize = 0;
            while i < items.len()
                invariant
                    views == items.deep_view(),
                    result@ == Json::Array(views),
                    i <= items.len(),
                    decode_strings(views.take(i as int)) == Some(names.deep_view()),
                decreases items.len() - i,
            {
                proof {
                    assert(views.take(i + 1).drop_last() =~= views.take(i as int));
                }
                match items[i].as_str() {
                    Some(text) => {
                        names.push(text.to_owned());
                    },
                    None => {
                        proof {
                            lemma_decode_strings_fails(views, i as int);
                        }
                        return None;
                    },
                }
                i = i + 1;
            }
            assert(views.take(i as int) =~= views);
            Some(names)
        },
        None => None,
    }
}

/// An array with an item that is no string is no array of strings.
pub proof fn lemma_decode_strings_fails(items: Seq<Json>, at: int)
    requires
        0 <= at < items.len(),
        !(items[at] is String),
    ensures
        decode_strings(items) is None,
    decreases items.len(),
{
    if at < items.len() - 1 {
        lemma_decode_strings_fails(items.drop_last(), at);
    }
}

/// An array with an item that is no row is no array of rows.
pub proof fn lemma_decode_rows_fails(items: Seq<Json>, at: int)
    requires
        0 <= at < items.len(),
        decode_row(items[at]) is None,
    ensures
        decode_row_items(items) is None,
    decreases items.len(),
{
    if at < items.len() - 1 {
        lemma_decode_rows_fails(items.drop_last(), at);
    }
}

/// Reads the answer to a lenient `bevy/get`.
pub fn read_components(result: &JsonValue) -> (records: Option<Vec<ComponentRecord>>)
    ensures
        optional_records(records) == decode_components(result@),
{
    match (result.get("components"), result.get("errors")) {
        (Some(components), Some(errors)) => match (components.as_object(), errors.as_object()) {
            (Some(members), Some(_)) => {
                let mut records: Vec<ComponentRecord> = Vec::new();
                let mut i: usize = 0;
                while i < members.len()
                    invariant
                        i <= members.len(),
                        records.len() == i,
                        forall|j: int|
                            0 <= j < i ==> records[j]@ == (Component {
                                name: members[j].0@,
                                value: members[j].1@,
                            }),
                    decreases members.len() - i,
                {
                    records.push(
                        ComponentRecord {
                            fully_qualified_name: members[i].0.clone(),
                            value: members[i].1.clone(),
                        },
                    );
                    i = i + 1;
                }
                Some(records)
            },
            _ => None,
        },
        _ => None,
    }
}

/// Reads one row of the answer to `bevy/query`.
pub fn read_row(json: &JsonValue) -> (row: Option<QueryRow>)
    ensures
        match row {
            Some(row) => decode_row(json@) == Some(row@),
            None => decode_row(json@) is None,
        },
{
    match (json.get("entity"), json.get("components")) {
        (Some(entity), Some(components)) => match (entity.as_u64(), components.as_object()) {
            (Some(entity), Some(_)) => match json.get("has") {
                Some(has) => match has.as_object() {
                    Some(_) => Some(
                        QueryRow {
                            entity,
                            components: components.clone(),
                            has: Some(has.clone()),
                        },
                    ),
                    None => None,
                },
                None => Some(QueryRow { entity, components: components.clone(), has: None }),
            },
            _ => None,
        },
        _ => None,
    }
}

/// Reads the answer to `bevy/query`.
pub fn read_rows(result: &JsonValue) -> (rows: Option<Vec<QueryRow>>)
    ensures
        optional_rows(rows) == decode_rows(result@),
{
    match result.as_array() {
        Some(items) => {
            let ghost views = items.deep_view();
            let mut rows: Vec<QueryRow> = Vec::new();
            let mut i: usize = 0;
            while i < items.len()
                invariant
                    views == items.deep_view(),
                    result@ == Json::Array(views),
                    i <= items.len(),
                    decode_row_items(views.take(i as int)) == Some(rows.deep_view()),
                decreases items.len() - i,
            {
                proof {
                    assert(views.take(i + 1).drop_last() =~= views.take(i as int));
                }
                match read_row(&items[i]) {
                    Some(row) => {
                        rows.push(row);
                    },
                    None => {
                        proof {
                            lemma_decode_rows_fails(views, i as int);
                        }
                        return None;
                    },
                }
                i = i + 1;
            }
            assert(views.take(i as int) =~= views);
            Some(rows)
        },
        None => None,
    }
}

/// The name of an entity: the string under `name` in its name component, where it has both.
pub open spec fn entity_name(components: Json) -> Option<Seq<char>> {
    match components.member("bevy_core::name::Name"@) {
        Some(component) => match component.member("name"@) {
            Some(Json::String(name)) => Some(name),
            _ => None,
        },
        None => None,
    }
}

/// The entity that a row of a query tells of.
pub open spec fn entity_of(row: Row) -> Entity {
    Entity { id: row.entity, name: entity_name(row.components) }
}

/// The entities that the rows of a query tell of, in the order of the rows.
pub open spec fn entities_of(rows: Seq<Row>) -> Seq<Entity> {
    Seq::new(rows.len(), |i: int| entity_of(rows[i]))
}

impl QueryRow {
    /// The entity that the row tells of.
    pub fn entity_meta(&self) -> (entity: EntityMeta)
        ensures
            entity@ == entity_of(self@),
    {
        let name = match self.components.get("bevy_core::name::Name") {
            Some(component) => match component.get("name") {
                Some(name) => match name.as_str() {
                    Some(name) => Some(name.to_owned()),
                    None => None,
                },
                None => None,
            },
            None => None,
        };
        EntityMeta { id: self.entity, name }
    }
}

/// How long a poller waits between the start of one round and the start of the next, in
/// nanoseconds.
pub const QUERY_COOLDOWN: u64 = 100_000_000;

/// How long a poller still has to sleep when its round took `elapsed` nanoseconds.
pub fn cooldown_left(elapsed: u64) -> (left: u64)
    ensures
        left == if elapsed >= QUERY_COOLDOWN {
            0
        } else {
            QUERY_COOLDOWN - elapsed
        },
{
    if elapsed >= QUERY_COOLDOWN {
        0
    } else {
        QUERY_COOLDOWN - elapsed
    }
}

/// The message that a round of the entity poller ends in: the entities that the answer tells
/// of, sorted by identifier, or the failure of the communication.
pub open spec fn entities_message(response: Option<Json>) -> MessageView {
    match call_result(response) {
        Some(result) => match decode_rows(result) {
            Some(rows) => MessageView::UpdateEntities(stable_sort(entities_of(rows), by_id())),
            None => MessageView::CommunicationFailed,
        },
        None => MessageView::CommunicationFailed,
    }
}

/// The request of the entity poller: every entity, with its name where it has one.
pub fn entity_query() -> (json: JsonValue)
    ensures
        json@ == envelope(
            "bevy/query"@,
            None,
            Some(
                query_params(
                    Seq::empty(),
                    seq!["bevy_core::name::Name"@],
                    Seq::empty(),
                    Seq::empty(),
                    Seq::empty(),
                ),
            ),
        ),
{
    let mut option: Vec<String> = Vec::new();
    option.push("bevy_core::name::Name".to_owned());
    let params = BrpQueryParams {
        data: BrpQuery { components: Vec::new(), option, has: Vec::new() },
        filter: BrpQueryFilter { with: Vec::new(), without: Vec::new() },
    };
    assert(params.data.option.deep_view() =~= seq!["bevy_core::name::Name"@]);
    query_request(&params)
}

/// One round of the entity poller, after the call: `response` is the body that came back, or
/// nothing where the call failed. The result is the message to send to the reducer.
pub fn handle_entity_querying(response: Option<&JsonValue>) -> (message: Message)
    ensures
        message@ == entities_message(optional_body(response)),
{
    match response_result(response) {
        Some(result) => match read_rows(result) {
            Some(rows) => {
                let mut entities: Vec<EntityMeta> = Vec::new();
                let mut i: usize = 0;
                while i < rows.len()
                    invariant
                        i <= rows.len(),
                        entities.len() == i,
                        forall|j: int| 0 <= j < i ==> entities[j]@ == entity_of(rows[j]@),
                    decreases rows.len() - i,
                {
                    entities.push(rows[i].entity_meta());
                    i = i + 1;
                }
                assert(entities.deep_view() =~= entities_of(rows.deep_view()));
                Message::UpdateEntities(sort_entities(entities))
            },
            None => Message::CommunicationFailed,
        },
        None => Message::CommunicationFailed,
    }
}

/// Where a component poller stands.
#[derive(Debug, Clone, Copy, PartialEq, Eq, Structural)]
pub enum PollerPhase {
    /// It has asked for the names of the components and waits for the answer.
    Listing,
    /// It knows the names and reads the values, round after round.
    Polling,
    /// It has stopped.
    Finished,
}

/// The component poller of one entity.
#[derive(Debug, PartialEq, Eq)]
pub struct ComponentsPoller {
    entity: u64,
    phase: PollerPhase,
    components: Vec<String>,
}

/// The mathematical value of a [`ComponentsPoller`].
pub struct PollerView {
    pub entity: u64,
    pub phase: PollerPhase,
    /// The names of the components, once they are known.
    pub components: Seq<Seq<char>>,
}

impl View for ComponentsPoller {
    type V = PollerView;

    closed spec fn view(&self) -> PollerView {
        PollerView {
            entity: self.entity,
            phase: self.phase,
            components: self.components.deep_view(),
        }
    }
}

/// What comes back to a component poller from the program that runs it.
#[derive(Debug, PartialEq, Eq)]
pub enum PollerEvent {
    /// The call came back: with this body, or with nothing where it failed.
    Response(Option<JsonValue>),
    /// The cancel flag was read.
    Woke { cancelled: bool },
}

/// The mathematical value of a [`PollerEvent`].
pub enum PollerEventView {
    Response(Option<Json>),
    Woke { cancelled: bool },
}

impl View for PollerEvent {
    type V = PollerEventView;

    open spec fn view(&self) -> PollerEventView {
        match self {
            PollerEvent::Response(body) => PollerEventView::Response(optional_json(*body)),
            PollerEvent::Woke { cancelled } => PollerEventView::Woke { cancelled: *cancelled },
        }
    }
}

/// What a component poller asks of the program that runs it.
#[derive(Debug, PartialEq, Eq)]
pub enum PollerAction {
    /// Post this request, and come back with the response.
    Post(JsonValue),
    /// Read the cancel flag, and come back with it.
    Check,
    /// Send this message to the reducer, sleep out the cooldown, read the cancel flag, and come
    /// back with it.
    Publish(Message),
    /// Send this message to the reducer and stop.
    Fail(Message),
    /// Stop.
    Exit,
}

/// The mathematical value of a [`PollerAction`].
pub enum PollerActionView {
    Post(Json),
    Check,
    Publish(MessageView),
    Fail(MessageView),
    Exit,
}

impl View for PollerAction {
    type V = PollerActionView;

    open spec fn view(&self) -> PollerActionView {
        match self {
            PollerAction::Post(request) => PollerActionView::Post(request@),
            PollerAction::Check => PollerActionView::Check,
            PollerAction::Publish(message) => PollerActionView::Publish(message@),
            PollerAction::Fail(message) => PollerActionView::Fail(message@),
            PollerAction::Exit => PollerActionView::Exit,
        }
    }
}

/// One step of a component poller. While it lists, the names that come back start the polling,
/// and anything else ends it in a failure. While it polls, a raised cancel flag stops it, a
/// flag that is down has it read the components leniently, the components that come back are
/// published, and an answer without them ends it in a failure. What does not fit the phase, and
/// anything after it has finished, stops it.
pub open spec fn poller_step(poller: PollerView, event: PollerEventView) -> (
    PollerView,
    PollerActionView,
) {
    let failed = (
        PollerView { phase: PollerPhase::Finished, ..poller },
        PollerActionView::Fail(MessageView::CommunicationFailed),
    );
    let stopped = (PollerView { phase: PollerPhase::Finished, ..poller }, PollerActionView::Exit);
    match (poller.phase, event) {
        (PollerPhase::Listing, PollerEventView::Response(response)) => match call_result(response) {
            Some(result) => match decode_names(result) {
                Some(names) => (
                    PollerView { phase: PollerPhase::Polling, components: names, ..poller },
                    PollerActionView::Check,
                ),
                None => failed,
            },
            None => failed,
        },
        (PollerPhase::Polling, PollerEventView::Woke { cancelled }) => if cancelled {
            stopped
        } else {
            (
                poller,
                PollerActionView::Post(
                    envelope(
                        "bevy/get"@,
                        None,
                        Some(get_params(poller.entity, poller.components, false)),
                    ),
                ),
            )
        },
        (PollerPhase::Polling, PollerEventView::Response(response)) => match call_result(response) {
            Some(result) => match decode_components(result) {
                Some(records) => (
                    poller,
                    PollerActionView::Publish(MessageView::UpdateComponents(records)),
                ),
                None => failed,
            },
            None => failed,
        },
        _ => stopped,
    }
}

/// A poller that has finished stays finished and asks for nothing more.
pub proof fn lemma_finished_poller_stays(poller: PollerView, event: PollerEventView)
    requires
        poller.phase == PollerPhase::Finished,
    ensures
        poller_step(poller, event) == (poller, PollerActionView::Exit),
{
}

/// A poller that finds its cancel flag raised stops at once, without another call.
pub proof fn lemma_cancelled_poller_stops(poller: PollerView)
    ensures
        poller_step(poller, PollerEventView::Woke { cancelled: true }).0.phase
            == PollerPhase::Finished,
        poller_step(poller, PollerEventView::Woke { cancelled: true }).1 == PollerActionView::Exit,
{
}

impl ComponentsPoller {
    /// A poller for `entity`, and its first request: the names of the entity's components.
    pub fn new(entity: u64) -> (start: (Self, JsonValue))
        ensures
            start.0@ == (PollerView {
                entity,
                phase: PollerPhase::Listing,
                components: Seq::empty(),
            }),
            start.1@ == envelope("bevy/list"@, None, Some(entity_params(entity))),
    {
        let poller = ComponentsPoller {
            entity,
            phase: PollerPhase::Listing,
            components: Vec::new(),
        };
        assert(poller.components.deep_view() =~= Seq::empty());
        (poller, list_request(&BrpListParams { entity }))
    }

    /// Whether the poller has stopped.
    pub fn is_finished(&self) -> (finished: bool)
        ensures
            finished == (self@.phase == PollerPhase::Finished),
    {
        self.phase == PollerPhase::Finished
    }

    fn fail(&mut self) -> (action: PollerAction)
        ensures
            final(self)@ == (PollerView { phase: PollerPhase::Finished, ..old(self)@ }),
            action@ == PollerActionView::Fail(MessageView::CommunicationFailed),
    {
        self.phase = PollerPhase::Finished;
        PollerAction::Fail(Message::CommunicationFailed)
    }

    fn stop(&mut self) -> (action: PollerAction)
        ensures
            final(self)@ == (PollerView { phase: PollerPhase::Finished, ..old(self)@ }),
            action@ == PollerActionView::Exit,
    {
        self.phase = PollerPhase::Finished;
        PollerAction::Exit
    }
}

/// One step of the component poller of an entity: takes what came back from the program that
/// runs the poller, and says what the program is to do next.
pub fn handle_components_querying(poller: &mut ComponentsPoller, event: PollerEvent) -> (action:
    PollerAction)
    ensures
        (final(poller)@, action@) == poller_step(old(poller)@, event@),
{
    match poller.phase {
        PollerPhase::Listing => match event {
            PollerEvent::Response(response) => {
                let names = match response_result(response.as_ref()) {
                    Some(result) => read_names(result),
                    None => None,
                };
                match names {
                    Some(names) => {
                        poller.components = names;
                        poller.phase = PollerPhase::Polling;
                        PollerAction::Check
                    },
                    None => poller.fail(),
                }
            },
            _ => poller.stop(),
        },
        PollerPhase::Polling => match event {
            PollerEvent::Woke { cancelled } => {
                if cancelled {
                    poller.stop()
                } else {
                    let mut components: Vec<String> = Vec::new();
                    let mut i: usize = 0;
                    while i < poller.components.len()
                        invariant
                            i <= poller.components.len(),
                            components.len() == i,
                            forall|j: int| 0 <= j < i ==> components[j]@ == poller.components[j]@,
                        decreases poller.components.len() - i,
                    {
                        components.push(poller.components[i].clone());
                        i = i + 1;
                    }
                    assert(components.deep_view() =~= poller.components.deep_view());
                    let params = BrpGetParams { entity: poller.entity, components, strict: false };
                    PollerAction::Post(get_request(&params))
                }
            },
            PollerEvent::Response(response) => {
                let records = match response_result(response.as_ref()) {
                    Some(result) => read_components(result),
                    None => None,
                };
                match records {
                    Some(records) => PollerAction::Publish(Message::UpdateComponents(records)),
                    None => poller.fail(),
                }
            },
        },
        PollerPhase::Finished => poller.stop(),
    }
}

/// Where the server listens.
#[derive(Debug, PartialEq, Eq)]
pub struct Socket {
    /// The address of the host as it stands in a URL.
    pub host: String,
    pub port: u16,
}

/// The mathematical value of a [`Socket`].
pub struct SocketView {
    pub host: Seq<char>,
    pub port: u16,
}

impl View for Socket {
    type V = SocketView;

    open spec fn view(&self) -> SocketView {
        SocketView { host: self.host@, port: self.port }
    }
}

impl SocketView {
    /// The URL to which requests are posted.
    pub open spec fn endpoint(self) -> Seq<char> {
        "http://"@ + self.host + ":"@ + decimal(self.port as nat) + "/"@
    }
}

impl Socket {
    /// Where a server listens unless it is told otherwise: port 15702 of this machine.
    pub fn default_socket() -> (socket: Socket)
        ensures
            socket@ == (SocketView { host: "127.0.0.1"@, port: 15702 }),
    {
        Socket { host: "127.0.0.1".to_owned(), port: 15702 }
    }

    /// The URL to which requests are posted.
    pub fn endpoint(&self) -> (url: String)
        ensures
            url@ == self@.endpoint(),
    {
        let mut url = "http://".to_owned();
        url.append(self.host.as_str());
        url.append(":");
        push_decimal(&mut url, self.port as u64);
        url.append("/");
        url
    }
}

impl Clone for Socket {
    fn clone(&self) -> (copy: Self)
        ensures
            copy@ == self@,
    {
        Socket { host: self.host.clone(), port: self.port }
    }
}

} // verus!
