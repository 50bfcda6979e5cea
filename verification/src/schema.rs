//! What a tool declares of its arguments, and the arguments decoded against it.

use vstd::prelude::*;
use vstd::string::StringExecFns;

verus! {

/// The type a property's value must have.
#[derive(Clone, Copy, Debug, PartialEq, Eq, Structural)]
pub enum ParamKind {
    /// A JSON string.
    Text,
    /// A JSON integer that fits in 64 signed bits.
    Integer,
    /// A JSON boolean.
    Boolean,
}

/// One named property of a tool's argument object.
#[derive(Debug, PartialEq, Eq)]
pub struct Property {
    pub name: String,
    pub kind: ParamKind,
    pub description: String,
    /// Whether a call must give this property.
    pub required: bool,
}

/// The mathematical value of a [`Property`].
pub struct PropertyView {
    pub name: Seq<char>,
    pub kind: ParamKind,
    pub description: Seq<char>,
    pub required: bool,
}

impl View for Property {
    type V = PropertyView;

    open spec fn view(&self) -> PropertyView {
        PropertyView {
            name: self.name@,
            kind: self.kind,
            description: self.description@,
            required: self.required,
        }
    }
}

impl Clone for Property {
    fn clone(&self) -> (out: Property)
        ensures
            out@ == self@,
    {
        Property {
            name: self.name.clone(),
            kind: self.kind,
            description: self.description.clone(),
            required: self.required,
        }
    }
}

/// The views of a sequence of properties.
pub open spec fn properties_view(properties: Seq<Property>) -> Seq<PropertyView> {
    Seq::new(properties.len(), |i: int| properties[i]@)
}

/// The shape of a tool's arguments: an object with the named properties.
#[derive(Debug, PartialEq, Eq)]
pub struct ParameterSchema {
    pub properties: Vec<Property>,
}

impl View for ParameterSchema {
    type V = Seq<PropertyView>;

    open spec fn view(&self) -> Seq<PropertyView> {
        properties_view(self.properties@)
    }
}

impl Clone for ParameterSchema {
    fn clone(&self) -> (out: ParameterSchema)
        ensures
            out@ == self@,
    {
        let mut properties: Vec<Property> = Vec::new();
        let mut i: usize = 0;
        while i < self.properties.len()
            invariant
                i <= self.properties.len(),
                properties.len() == i,
                forall|j: int| 0 <= j < i ==> (#[trigger] properties[j])@ == self.properties[j]@,
            decreases self.properties.len() - i,
        {
            properties.push(self.properties[i].clone());
            i += 1;
        }
        let out = ParameterSchema { properties };
        assert(out@ =~= self@);
        out
    }
}

impl ParameterSchema {
    /// A schema without properties: it accepts every JSON object.
    pub fn empty() -> (out: ParameterSchema)
        ensures
            out@ == Seq::<PropertyView>::empty(),
    {
        let out = ParameterSchema { properties: Vec::new() };
        assert(out@ =~= Seq::<PropertyView>::empty());
        out
    }

    /// This schema with one more property, declared after the others.
    pub fn with_property(
        self,
        name: &str,
        kind: ParamKind,
        description: &str,
        required: bool,
    ) -> (out: ParameterSchema)
        ensures
            out@ == self@.push(
                PropertyView { name: name@, kind, description: description@, required },
            ),
    {
        let mut properties = self.properties;
        let ghost before = properties@;
        properties.push(
            Property { name: name.to_owned(), kind, description: description.to_owned(), required },
        );
        let out = ParameterSchema { properties };
        assert(out@ =~= properties_view(before).push(
            PropertyView { name: name@, kind, description: description@, required },
        ));
        out
    }
}

/// The name under which a schema document declares a kind.
pub open spec fn kind_name(kind: ParamKind) -> Seq<char> {
    match kind {
        ParamKind::Text => "string"@,
        ParamKind::Integer => "integer"@,
        ParamKind::Boolean => "boolean"@,
    }
}

impl ParamKind {
    /// The name under which a schema document declares this kind.
    pub fn declared_type(&self) -> (out: String)
        ensures
            out@ == kind_name(*self),
    {
        match self {
            ParamKind::Text => String::from_str("string"),
            ParamKind::Integer => String::from_str("integer"),
            ParamKind::Boolean => String::from_str("boolean"),
        }
    }
}

/// One property as a schema document declares it.
#[derive(Debug, PartialEq, Eq)]
pub struct PropertyEntry {
    pub name: String,
    /// The declared type: `string`, `integer` or `boolean`.
    pub declared_type: String,
    pub description: String,
}

/// The mathematical value of a [`PropertyEntry`].
pub struct PropertyEntryView {
    pub name: Seq<char>,
    pub declared_type: Seq<char>,
    pub description: Seq<char>,
}

impl View for PropertyEntry {
    type V = PropertyEntryView;

    open spec fn view(&self) -> PropertyEntryView {
        PropertyEntryView {
            name: self.name@,
            declared_type: self.declared_type@,
            description: self.description@,
        }
    }
}

/// The document that tells the model the shape of a tool's arguments: an
/// object with named, typed properties and the list of those that a call
/// must give.
#[derive(Debug, PartialEq, Eq)]
pub struct SchemaDocument {
    /// The type of the arguments as a whole: `object`.
    pub declared_type: String,
    pub properties: Vec<PropertyEntry>,
    pub required: Vec<String>,
}

/// The mathematical value of a [`SchemaDocument`].
pub struct SchemaDocumentView {
    pub declared_type: Seq<char>,
    pub properties: Seq<PropertyEntryView>,
    pub required: Seq<Seq<char>>,
}

impl View for SchemaDocument {
    type V = SchemaDocumentView;

    open spec fn view(&self) -> SchemaDocumentView {
        SchemaDocumentView {
            declared_type: self.declared_type@,
            properties: Seq::new(self.properties@.len(), |i: int| self.properties@[i]@),
            required: Seq::new(self.required@.len(), |i: int| self.required@[i]@),
        }
    }
}

/// The names of the required properties, in the order of the declaration.
pub open spec fn required_names(properties: Seq<PropertyView>) -> Seq<Seq<char>>
    decreases properties.len(),
{
    if properties.len() == 0 {
        Seq::empty()
    } else if properties.last().required {
        required_names(properties.drop_last()).push(properties.last().name)
    } else {
        required_names(properties.drop_last())
    }
}

/// The document of a schema: every property with the name of its kind, and
/// the required ones listed by name.
pub open spec fn schema_document(properties: Seq<PropertyView>) -> SchemaDocumentView {
    SchemaDocumentView {
        declared_type: "object"@,
        properties: Seq::new(
            properties.len(),
            |i: int|
                PropertyEntryView {
                    name: properties[i].name,
                    declared_type: kind_name(properties[i].kind),
                    description: properties[i].description,
                },
        ),
        required: required_names(properties),
    }
}

impl ParameterSchema {
    /// The document that tells the model the shape of the arguments.
    pub fn document(&self) -> (out: SchemaDocument)
        ensures
            out@ == schema_document(self@),
    {
        let mut properties: Vec<PropertyEntry> = Vec::new();
        let mut required: Vec<String> = Vec::new();
        let mut i: usize = 0;
        while i < self.properties.len()
            invariant
                i <= self.properties.len(),
                properties.len() == i,
                forall|j: int|
                    0 <= j < i ==> (#[trigger] properties[j])@ == schema_document(
                        self@,
                    ).properties[j],
                Seq::new(required@.len(), |k: int| required@[k]@) == required_names(
                    self@.take(i as int),
                ),
            decreases self.properties.len() - i,
        {
            let property = &self.properties[i];
            proof {
                let next = self@.take(i + 1);
                assert(next.drop_last() =~= self@.take(i as int));
                assert(next.last() == property@);
            }
            if property.required {
                let ghost before = required@;
                required.push(property.name.clone());
                assert(Seq::new(required@.len(), |k: int| required@[k]@) =~= Seq::new(
                    before.len(),
                    |k: int| before[k]@,
                ).push(property.name@));
            }
            properties.push(
                PropertyEntry {
                    name: property.name.clone(),
                    declared_type: property.kind.declared_type(),
                    description: property.description.clone(),
                },
            );
            i += 1;
        }
        assert(self@.take(i as int) =~= self@);
        let out = SchemaDocument { declared_type: String::from_str("object"), properties, required };
        assert(out@.properties =~= schema_document(self@).properties);
        out
    }
}

/// A decoded argument value.
#[derive(Debug, PartialEq, Eq)]
pub enum ArgValue {
    Text(String),
    Integer(i64),
    Boolean(bool),
}

/// The mathematical value of an [`ArgValue`].
pub enum ArgValueView {
    Text(Seq<char>),
    Integer(i64),
    Boolean(bool),
}

impl View for ArgValue {
    type V = ArgValueView;

    open spec fn view(&self) -> ArgValueView {
        match self {
            ArgValue::Text(t) => ArgValueView::Text(t@),
            ArgValue::Integer(n) => ArgValueView::Integer(*n),
            ArgValue::Boolean(b) => ArgValueView::Boolean(*b),
        }
    }
}

/// A decoded argument: the property's name and the value given for it.
#[derive(Debug, PartialEq, Eq)]
pub struct Argument {
    pub name: String,
    pub value: ArgValue,
}

/// The mathematical value of an [`Argument`].
pub struct ArgumentView {
    pub name: Seq<char>,
    pub value: ArgValueView,
}

impl View for Argument {
    type V = ArgumentView;

    open spec fn view(&self) -> ArgumentView {
        ArgumentView { name: self.name@, value: self.value@ }
    }
}

/// The views of a sequence of arguments.
pub open spec fn arguments_view(arguments: Seq<Argument>) -> Seq<ArgumentView> {
    Seq::new(arguments.len(), |i: int| arguments[i]@)
}

/// The arguments of one tool call, decoded: one entry for each declared
/// property that the call gave, in the order of the declaration.
#[derive(Debug, PartialEq, Eq)]
pub struct ToolArgs {
    pub entries: Vec<Argument>,
}

impl View for ToolArgs {
    type V = Seq<ArgumentView>;

    open spec fn view(&self) -> Seq<ArgumentView> {
        arguments_view(self.entries@)
    }
}

/// The first entry of `arguments` named `name`, from position `from` on.
pub open spec fn lookup_from(arguments: Seq<ArgumentView>, name: Seq<char>, from: int) -> Option<
    ArgValueView,
>
    decreases arguments.len() - from,
{
    if from < 0 || from >= arguments.len() {
        None
    } else if arguments[from].name == name {
        Some(arguments[from].value)
    } else {
        lookup_from(arguments, name, from + 1)
    }
}

/// The value of the first entry of `arguments` named `name`.
pub open spec fn lookup(arguments: Seq<ArgumentView>, name: Seq<char>) -> Option<ArgValueView> {
    lookup_from(arguments, name, 0)
}

impl ToolArgs {
    /// The value given for the property `name`, if the call gave one.
    pub fn get(&self, name: &str) -> (found: Option<&ArgValue>)
        ensures
            found is Some <==> lookup(self@, name@) is Some,
            found matches Some(value) ==> lookup(self@, name@) == Some(value@),
    {
        let wanted = name.to_owned();
        let mut i: usize = 0;
        while i < self.entries.len()
            invariant
                i <= self.entries.len(),
                wanted@ == name@,
                lookup(self@, name@) == lookup_from(self@, name@, i as int),
            decreases self.entries.len() - i,
        {
            if self.entries[i].name == wanted {
                return Some(&self.entries[i].value);
            }
            i += 1;
        }
        None
    }

    /// The text given for the property `name`, if the call gave text for it.
    pub fn text(&self, name: &str) -> (found: Option<&str>)
        ensures
            found is Some <==> lookup(self@, name@) is Some && lookup(self@, name@)->0 is Text,
            found matches Some(t) ==> lookup(self@, name@) == Some(ArgValueView::Text(t@)),
    {
        match self.get(name) {
            Some(ArgValue::Text(t)) => Some(t.as_str()),
            _ => None,
        }
    }
}

} // verus!
