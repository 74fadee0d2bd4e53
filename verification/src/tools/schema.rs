//! The definition of a tool's parameters as the model receives it.

use crate::text::equal;
use vstd::prelude::*;

verus! {

/// An object schema: the typed properties and the names that are required.
#[derive(Debug, PartialEq, Eq)]
pub struct FunctionSchema {
    /// Each property with its type, `string` or `integer`.
    pub properties: Vec<(String, String)>,
    /// The names of the required properties.
    pub required: Vec<String>,
}

/// The mathematical value of a [`FunctionSchema`].
pub struct FunctionSchemaView {
    pub properties: Seq<(Seq<char>, Seq<char>)>,
    pub required: Seq<Seq<char>>,
}

impl View for FunctionSchema {
    type V = FunctionSchemaView;

    open spec fn view(&self) -> FunctionSchemaView {
        FunctionSchemaView {
            properties: self.properties.deep_view(),
            required: self.required.deep_view(),
        }
    }
}

impl DeepView for FunctionSchema {
    type V = FunctionSchemaView;

    open spec fn deep_view(&self) -> FunctionSchemaView {
        self@
    }
}

impl Clone for FunctionSchema {
    fn clone(&self) -> (out: Self)
        ensures
            out@ == self@,
    {
        let mut properties: Vec<(String, String)> = Vec::new();
        let mut i: usize = 0;
        while i < self.properties.len()
            invariant
                i <= self.properties.len(),
                properties.len() == i,
                forall|j: int|
                    0 <= j < i ==> properties[j].deep_view() == self.properties[j].deep_view(),
            decreases self.properties.len() - i,
        {
            properties.push((self.properties[i].0.clone(), self.properties[i].1.clone()));
            i += 1;
        }
        proof {
            assert(properties.deep_view() =~= self.properties.deep_view());
        }
        FunctionSchema { properties, required: crate::chat::clone_texts(&self.required) }
    }
}

/// Whether a declared type is one that the schema can express.
pub open spec fn is_schema_type(declared: Seq<char>) -> bool {
    declared == "string"@ || declared == "integer"@
}

/// The declared parameters whose type the schema can express, in order.
pub open spec fn schema_properties(parameters: Seq<(Seq<char>, Seq<char>)>) -> Seq<
    (Seq<char>, Seq<char>),
>
    decreases parameters.len(),
{
    if parameters.len() == 0 {
        Seq::empty()
    } else if is_schema_type(parameters.last().1) {
        schema_properties(parameters.drop_last()).push(parameters.last())
    } else {
        schema_properties(parameters.drop_last())
    }
}

/// The names of all declared parameters, in order.
pub open spec fn schema_required(parameters: Seq<(Seq<char>, Seq<char>)>) -> Seq<Seq<char>> {
    Seq::new(parameters.len(), |i: int| parameters[i].0)
}

/// The schema for the declared parameters: those of type `string` or
/// `integer` become properties, and every declared name is required.
pub open spec fn schema_of(parameters: Seq<(Seq<char>, Seq<char>)>) -> FunctionSchemaView {
    FunctionSchemaView {
        properties: schema_properties(parameters),
        required: schema_required(parameters),
    }
}

/// Builds the schema for the declared parameters.
pub fn definition_of(parameters: &Vec<(&'static str, &'static str)>) -> (out: FunctionSchema)
    ensures
        out@ == schema_of(parameters.deep_view()),
{
    let mut properties: Vec<(String, String)> = Vec::new();
    let mut required: Vec<String> = Vec::new();
    let mut i: usize = 0;
    while i < parameters.len()
        invariant
            i <= parameters.len(),
            properties.deep_view() == schema_properties(parameters.deep_view().take(i as int)),
            required.len() == i,
            forall|j: int| 0 <= j < i ==> required[j]@ == parameters[j].0@,
        decreases parameters.len() - i,
    {
        let name: &str = parameters[i].0;
        let declared: &str = parameters[i].1;
        proof {
            let upto = parameters.deep_view().take(i as int + 1);
            assert(upto.drop_last() =~= parameters.deep_view().take(i as int));
        }
        if equal(declared, "string") || equal(declared, "integer") {
            properties.push((name.to_owned(), declared.to_owned()));
        }
        required.push(name.to_owned());
        i += 1;
    }
    proof {
        assert(parameters.deep_view().take(parameters.len() as int) =~= parameters.deep_view());
        assert(required.deep_view() =~= schema_required(parameters.deep_view()));
    }
    FunctionSchema { properties, required }
}

} // verus!
