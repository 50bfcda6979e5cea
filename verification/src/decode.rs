//! Decoding a tool call's raw arguments against the tool's schema.

use vstd::prelude::*;
use crate::error::{DecodeFailure, DecodeFailureView};
use crate::json::{json_as_boolean, json_as_integer, json_as_text, json_is_object, json_member,
    json_model, json_parse, parse_json, Json};
use crate::schema::{ArgValue, ArgValueView, Argument, ArgumentView, ParamKind, ParameterSchema,
    Property, PropertyView, ToolArgs, arguments_view};

verus! {

/// The argument value that `document` gives for a property of kind `kind`,
/// where it is of that kind.
pub open spec fn value_of_kind(kind: ParamKind, document: Json) -> Option<ArgValueView> {
    match (kind, document) {
        (ParamKind::Text, Json::Text(t)) => Some(ArgValueView::Text(t)),
        (ParamKind::Integer, Json::Integer(n)) => if i64::MIN <= n <= i64::MAX {
            Some(ArgValueView::Integer(n as i64))
        } else {
            None
        },
        (ParamKind::Boolean, Json::Bool(b)) => Some(ArgValueView::Boolean(b)),
        _ => None,
    }
}

/// What one property decodes to: its argument, nothing where an optional
/// property is absent, or the failure.
pub open spec fn decode_property(property: PropertyView, members: Map<Seq<char>, Json>) -> Result<
    Option<ArgumentView>,
    DecodeFailureView,
> {
    if !members.contains_key(property.name) {
        if property.required {
            Err(DecodeFailureView::MissingProperty(property.name))
        } else {
            Ok(None)
        }
    } else {
        match value_of_kind(property.kind, members[property.name]) {
            Some(value) => Ok(Some(ArgumentView { name: property.name, value })),
            None => Err(DecodeFailureView::WrongType(property.name)),
        }
    }
}

/// What the properties decode to, taken in order: the arguments of those that
/// are present, or the failure of the first property that fails.
pub open spec fn decode_properties(
    properties: Seq<PropertyView>,
    members: Map<Seq<char>, Json>,
) -> Result<Seq<ArgumentView>, DecodeFailureView>
    decreases properties.len(),
{
    if properties.len() == 0 {
        Ok(Seq::empty())
    } else {
        match decode_properties(properties.drop_last(), members) {
            Err(why) => Err(why),
            Ok(arguments) => match decode_property(properties.last(), members) {
                Err(why) => Err(why),
                Ok(None) => Ok(arguments),
                Ok(Some(argument)) => Ok(arguments.push(argument)),
            },
        }
    }
}

/// What a parsed document decodes to against `schema`.
pub open spec fn decode_document(schema: Seq<PropertyView>, document: Json) -> Result<
    Seq<ArgumentView>,
    DecodeFailureView,
> {
    match document {
        Json::Object(members) => decode_properties(schema, members),
        _ => Err(DecodeFailureView::NotAnObject),
    }
}

/// What a raw payload decodes to against `schema`.
pub open spec fn decode_raw(schema: Seq<PropertyView>, raw: Seq<char>) -> Result<
    Seq<ArgumentView>,
    DecodeFailureView,
> {
    match json_parse(raw) {
        Some(document) => decode_document(schema, document),
        None => Err(DecodeFailureView::InvalidJson),
    }
}

/// A raw payload satisfies `schema`: it is a JSON object that has every
/// required property, and each declared property it has is of the declared
/// type.
pub open spec fn satisfies_schema(schema: Seq<PropertyView>, raw: Seq<char>) -> bool {
    &&& json_parse(raw) matches Some(Json::Object(members))
    &&& forall|i: int|
        0 <= i < schema.len() ==> {
            let property = #[trigger] schema[i];
            if members.contains_key(property.name) {
                value_of_kind(property.kind, members[property.name]) is Some
            } else {
                !property.required
            }
        }
}

/// The properties decode exactly where each of them decodes.
pub proof fn lemma_decode_properties_ok(properties: Seq<PropertyView>, members: Map<Seq<char>, Json>)
    ensures
        decode_properties(properties, members) is Ok <==> forall|i: int|
            0 <= i < properties.len() ==> decode_property(#[trigger] properties[i], members) is Ok,
    decreases properties.len(),
{
    if properties.len() > 0 {
        let front = properties.drop_last();
        lemma_decode_properties_ok(front, members);
        if decode_properties(properties, members) is Ok {
            assert forall|i: int| 0 <= i < properties.len() implies decode_property(
                #[trigger] properties[i],
                members,
            ) is Ok by {
                if i < front.len() {
                    assert(front[i] == properties[i]);
                }
            }
        } else {
            if decode_properties(front, members) is Ok {
                assert(decode_property(properties[properties.len() - 1], members) is Err);
            } else {
                let i = choose|i: int|
                    0 <= i < front.len() && !(decode_property(#[trigger] front[i], members) is Ok);
                assert(front[i] == properties[i]);
            }
        }
    }
}

/// A payload decodes exactly where it satisfies the schema.
pub proof fn lemma_decodes_iff_satisfies(schema: Seq<PropertyView>, raw: Seq<char>)
    ensures
        decode_raw(schema, raw) is Ok <==> satisfies_schema(schema, raw),
{
    if let Some(Json::Object(members)) = json_parse(raw) {
        lemma_decode_properties_ok(schema, members);
        if satisfies_schema(schema, raw) {
            assert forall|i: int| 0 <= i < schema.len() implies decode_property(
                #[trigger] schema[i],
                members,
            ) is Ok by {}
        }
        if decode_raw(schema, raw) is Ok {
            assert forall|i: int| 0 <= i < schema.len() implies {
                let property = #[trigger] schema[i];
                if members.contains_key(property.name) {
                    value_of_kind(property.kind, members[property.name]) is Some
                } else {
                    !property.required
                }
            } by {
                assert(decode_property(schema[i], members) is Ok);
            }
        }
    }
}

/// The value that `member` gives for a property of kind `kind`.
fn decode_value_of_kind(kind: ParamKind, member: &serde_json::Value) -> (out: Option<ArgValue>)
    ensures
        out is Some <==> value_of_kind(kind, json_model(*member)) is Some,
        out matches Some(value) ==> value_of_kind(kind, json_model(*member)) == Some(value@),
{
    match kind {
        ParamKind::Text => match json_as_text(member) {
            Some(text) => Some(ArgValue::Text(text.to_owned())),
            None => None,
        },
        ParamKind::Integer => match json_as_integer(member) {
            Some(number) => Some(ArgValue::Integer(number)),
            None => None,
        },
        ParamKind::Boolean => match json_as_boolean(member) {
            Some(flag) => Some(ArgValue::Boolean(flag)),
            None => None,
        },
    }
}

/// Decodes one property out of a JSON object.
fn decode_one(property: &Property, document: &serde_json::Value) -> (out: Result<
    Option<Argument>,
    DecodeFailure,
>)
    requires
        json_model(*document) is Object,
    ensures
        match decode_property(property@, json_model(*document)->Object_0) {
            Ok(None) => out matches Ok(None),
            Ok(Some(argument)) => out matches Ok(Some(a)) && a@ == argument,
            Err(why) => out matches Err(w) && w@ == why,
        },
{
    match json_member(document, property.name.as_str()) {
        None => if property.required {
            Err(DecodeFailure::MissingProperty(property.name.clone()))
        } else {
            Ok(None)
        },
        Some(member) => match decode_value_of_kind(property.kind, member) {
            Some(value) => Ok(Some(Argument { name: property.name.clone(), value })),
            None => Err(DecodeFailure::WrongType(property.name.clone())),
        },
    }
}

/// Decodes a parsed JSON document against `schema`.
///
/// Succeeds exactly where the document is an object that has every required
/// property and whose declared properties are of the declared types; the
/// arguments come in the order of the declaration. Otherwise the failure is
/// that of the first property, in that order, that does not fit.
pub fn decode_value(schema: &ParameterSchema, document: &serde_json::Value) -> (out: Result<
    ToolArgs,
    DecodeFailure,
>)
    ensures
        match decode_document(schema@, json_model(*document)) {
            Ok(arguments) => out matches Ok(decoded) && decoded@ == arguments,
            Err(why) => out matches Err(w) && w@ == why,
        },
{
    if !json_is_object(document) {
        return Err(DecodeFailure::NotAnObject);
    }
    let ghost members = json_model(*document)->Object_0;
    let mut entries: Vec<Argument> = Vec::new();
    let mut i: usize = 0;
    assert(arguments_view(entries@) =~= Seq::<ArgumentView>::empty());
    while i < schema.properties.len()
        invariant
            i <= schema.properties.len(),
            json_model(*document) is Object,
            members == json_model(*document)->Object_0,
            decode_properties(schema@.take(i as int), members) == Ok::<
                Seq<ArgumentView>,
                DecodeFailureView,
            >(arguments_view(entries@)),
        decreases schema.properties.len() - i,
    {
        proof {
            let next = schema@.take(i + 1);
            assert(next.drop_last() =~= schema@.take(i as int));
            assert(next.last() == schema.properties[i as int]@);
        }
        let ghost before = entries@;
        match decode_one(&schema.properties[i], document) {
            Err(why) => {
                proof {
                    lemma_decode_prefix_fails(schema@, members, i + 1);
                }
                return Err(why);
            },
            Ok(None) => {},
            Ok(Some(argument)) => {
                entries.push(argument);
                assert(arguments_view(entries@) =~= arguments_view(before).push(argument@));
            },
        }
        i += 1;
    }
    assert(schema@.take(i as int) =~= schema@);
    Ok(ToolArgs { entries })
}

/// Where a front part of the properties fails to decode, the whole fails the
/// same way.
pub proof fn lemma_decode_prefix_fails(
    properties: Seq<PropertyView>,
    members: Map<Seq<char>, Json>,
    upto: int,
)
    requires
        0 <= upto <= properties.len(),
        decode_properties(properties.take(upto), members) is Err,
    ensures
        decode_properties(properties, members) == decode_properties(
            properties.take(upto),
            members,
        ),
    decreases properties.len() - upto,
{
    if upto < properties.len() {
        let next = properties.take(upto + 1);
        assert(next.drop_last() =~= properties.take(upto));
        lemma_decode_prefix_fails(properties, members, upto + 1);
    } else {
        assert(properties.take(upto) =~= properties);
    }
}

/// Decodes the raw arguments of a tool call against `schema`.
///
/// Succeeds exactly where `raw` satisfies the schema, with the arguments in
/// the order of the declaration; otherwise says why it does not.
pub fn decode_arguments(schema: &ParameterSchema, raw: &str) -> (out: Result<
    ToolArgs,
    DecodeFailure,
>)
    ensures
        out is Ok <==> satisfies_schema(schema@, raw@),
        match decode_raw(schema@, raw@) {
            Ok(arguments) => out matches Ok(decoded) && decoded@ == arguments,
            Err(why) => out matches Err(w) && w@ == why,
        },
{
    proof {
        lemma_decodes_iff_satisfies(schema@, raw@);
    }
    match parse_json(raw) {
        Ok(document) => decode_value(schema, &document),
        Err(_) => Err(DecodeFailure::InvalidJson),
    }
}

} // verus!
