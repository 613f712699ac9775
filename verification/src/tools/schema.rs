//! Building blocks of the JSON Schemas that describe tool parameters.
use vstd::prelude::*;
use crate::json::{JsonValue, JsonView, lemma_object_view, members_view, put};
use crate::sorting::views_of;

verus! {

/// `{"type": kind, "description": description}` followed by `extra`.
pub open spec fn prop_json(kind: Seq<char>, description: Seq<char>, extra: Seq<(Seq<char>, JsonView)>) -> JsonView {
    JsonView::Object(seq![("type"@, JsonView::Str(kind)), ("description"@, JsonView::Str(description))] + extra)
}

/// `{"type": "object", "properties": .., "required": [..]}`.
pub open spec fn object_schema_json(props: Seq<(Seq<char>, JsonView)>, required: Seq<Seq<char>>) -> JsonView {
    JsonView::Object(
        seq![
            ("type"@, JsonView::Str("object"@)),
            ("properties"@, JsonView::Object(props)),
            ("required"@, JsonView::Array(required.map_values(|s: Seq<char>| JsonView::Str(s)))),
        ],
    )
}

/// A property of the given type and description, with more members.
pub fn prop_with(kind: &str, description: &str, extra: Vec<(String, JsonValue)>) -> (r: JsonValue)
    ensures
        r@ == prop_json(kind@, description@, members_view(extra@)),
{
    let mut m: Vec<(String, JsonValue)> = Vec::new();
    put(&mut m, "type", JsonValue::string(kind));
    put(&mut m, "description", JsonValue::string(description));
    let ghost head = m@;
    let mut rest = extra;
    let ghost added = rest@;
    m.append(&mut rest);
    proof {
        lemma_object_view(m);
        assert(members_view(m@) =~= members_view(head) + members_view(added));
        assert(members_view(head) =~= seq![("type"@, JsonView::Str(kind@)), ("description"@, JsonView::Str(description@))]);
    }
    JsonValue::Object(m)
}

/// A property of the given type and description.
pub fn prop(kind: &str, description: &str) -> (r: JsonValue)
    ensures
        r@ == prop_json(kind@, description@, Seq::empty()),
{
    let none: Vec<(String, JsonValue)> = Vec::new();
    assert(members_view(none@) =~= Seq::<(Seq<char>, JsonView)>::empty());
    prop_with(kind, description, none)
}

/// An object schema with the given properties and required names.
pub fn object_schema(props: Vec<(String, JsonValue)>, required: &Vec<String>) -> (r: JsonValue)
    ensures
        r@ == object_schema_json(members_view(props@), views_of(required@)),
{
    let ghost pv = members_view(props@);
    proof {
        lemma_object_view(props);
    }
    let req = JsonValue::strings(required);
    let mut m: Vec<(String, JsonValue)> = Vec::new();
    put(&mut m, "type", JsonValue::string("object"));
    put(&mut m, "properties", JsonValue::Object(props));
    put(&mut m, "required", req);
    proof {
        lemma_object_view(m);
        assert(required@.map_values(|x: String| JsonView::Str(x@)) =~= views_of(required@).map_values(
            |s: Seq<char>| JsonView::Str(s),
        ));
        assert(members_view(m@) =~= object_schema_json(pv, views_of(required@))->Object_0);
    }
    JsonValue::Object(m)
}

/// A list with one name.
pub fn names1(a: &str) -> (r: Vec<String>)
    ensures
        views_of(r@) == seq![a@],
{
    let mut v: Vec<String> = Vec::new();
    v.push(crate::text::string_of(a));
    assert(views_of(v@) =~= seq![a@]);
    v
}

} // verus!
