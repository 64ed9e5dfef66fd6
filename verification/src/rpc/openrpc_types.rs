//! The parts of an OpenRPC document.

use vstd::prelude::*;

verus! {

/// The schema that [`schemars::schema::Schema`] is.
#[verifier::external_type_specification]
#[verifier::external_body]
pub struct ExSchema(schemars::schema::Schema);

/// The ways in which the parameters of a method may be given.
#[derive(Debug, Clone, Copy, PartialEq, Eq, Structural)]
pub enum ParamStructure {
    ByName,
    ByPosition,
    Either,
}

/// A parameter or a result: its name, its schema, and whether it must be there.
#[derive(Debug)]
pub struct ContentDescriptor {
    pub name: String,
    pub schema: schemars::schema::Schema,
    pub required: bool,
}

/// Why descriptors are no parameter list.
#[derive(Debug, Clone, Copy, PartialEq, Eq, Structural)]
pub enum ParamListError {
    /// Two parameters have one name.
    DuplicateName,
    /// A parameter that must be there follows one that need not.
    RequiredAfterOptional,
}

/// Whether no two parameters have one name.
pub open spec fn distinct_names(params: Seq<ContentDescriptor>) -> bool {
    forall|i: int, j: int|
        0 <= i < j < params.len() ==> (#[trigger] params[i]).name@ != (#[trigger] params[j]).name@
}

/// Whether the parameters that must be there come first.
pub open spec fn required_first(params: Seq<ContentDescriptor>) -> bool {
    forall|i: int, j: int|
        0 <= i < j < params.len() && (#[trigger] params[j]).required ==> (
        #[trigger] params[i]).required
}

/// The parameters of a method, in order.
#[derive(Debug)]
pub struct Params {
    params: Vec<ContentDescriptor>,
}

impl View for Params {
    type V = Seq<ContentDescriptor>;

    closed spec fn view(&self) -> Seq<ContentDescriptor> {
        self.params@
    }
}

impl Params {
    /// The parameter list of `params`.
    pub fn new(params: Vec<ContentDescriptor>) -> (r: Result<Params, ParamListError>)
        ensures
            match r {
                Ok(list) => list@ == params@ && distinct_names(params@) && required_first(params@),
                Err(ParamListError::DuplicateName) => !distinct_names(params@),
                Err(ParamListError::RequiredAfterOptional) => distinct_names(params@)
                    && !required_first(params@),
            },
    {
        let mut i: usize = 0;
        while i < params.len()
            invariant
                i <= params@.len(),
                forall|a: int, b: int|
                    0 <= a < b < i ==> (#[trigger] params@[a]).name@ != (#[trigger] params@[b]).name@,
            decreases params@.len() - i,
        {
            let mut j: usize = 0;
            while j < i
                invariant
                    j <= i < params@.len(),
                    forall|a: int| 0 <= a < j ==> (#[trigger] params@[a]).name@ != params@[i as int].name@,
                decreases i - j,
            {
                if params[j].name == params[i].name {
                    return Err(ParamListError::DuplicateName);
                }
                j = j + 1;
            }
            i = i + 1;
        }
        let mut optional_seen = false;
        let mut k: usize = 0;
        while k < params.len()
            invariant
                k <= params@.len(),
                distinct_names(params@),
                optional_seen == exists|a: int| 0 <= a < k && !(#[trigger] params@[a]).required,
                forall|a: int, b: int|
                    0 <= a < b < k && (#[trigger] params@[b]).required ==> (
                    #[trigger] params@[a]).required,
            decreases params@.len() - k,
        {
            if params[k].required {
                if optional_seen {
                    return Err(ParamListError::RequiredAfterOptional);
                }
            } else {
                optional_seen = true;
            }
            k = k + 1;
        }
        Ok(Params { params })
    }

    /// The parameters, in order.
    pub fn params(&self) -> (r: &[ContentDescriptor])
        ensures
            r@ == self@,
    {
        self.params.as_slice()
    }
}

/// A method.
#[derive(Debug)]
pub struct Method {
    pub name: String,
    pub params: Params,
    pub param_structure: ParamStructure,
    pub result: Option<ContentDescriptor>,
}

/// Two methods have one name.
#[derive(Debug, Clone, Copy, PartialEq, Eq, Structural)]
pub struct DuplicateMethod;

/// Whether no two methods have one name.
pub open spec fn distinct_methods(methods: Seq<Method>) -> bool {
    forall|i: int, j: int|
        0 <= i < j < methods.len() ==> (#[trigger] methods[i]).name@ != (
        #[trigger] methods[j]).name@
}

/// The methods of a document, in order.
#[derive(Debug)]
pub struct Methods {
    methods: Vec<Method>,
}

impl View for Methods {
    type V = Seq<Method>;

    closed spec fn view(&self) -> Seq<Method> {
        self.methods@
    }
}

impl Methods {
    /// The method list of `methods`.
    pub fn new(methods: Vec<Method>) -> (r: Result<Methods, DuplicateMethod>)
        ensures
            match r {
                Ok(list) => list@ == methods@ && distinct_methods(methods@),
                Err(DuplicateMethod) => !distinct_methods(methods@),
            },
    {
        let mut i: usize = 0;
        while i < methods.len()
            invariant
                i <= methods@.len(),
                forall|a: int, b: int|
                    0 <= a < b < i ==> (#[trigger] methods@[a]).name@ != (
                    #[trigger] methods@[b]).name@,
            decreases methods@.len() - i,
        {
            let mut j: usize = 0;
            while j < i
                invariant
                    j <= i < methods@.len(),
                    forall|a: int|
                        0 <= a < j ==> (#[trigger] methods@[a]).name@ != methods@[i as int].name@,
                decreases i - j,
            {
                if methods[j].name == methods[i].name {
                    return Err(DuplicateMethod);
                }
                j = j + 1;
            }
            i = i + 1;
        }
        Ok(Methods { methods })
    }

    /// The methods, in order.
    pub fn methods(&self) -> (r: &[Method])
        ensures
            r@ == self@,
    {
        self.methods.as_slice()
    }
}

/// Schemas that others refer to, by name.
#[derive(Debug)]
pub struct Components {
    pub schemas: Vec<(String, schemars::schema::Schema)>,
}

/// An OpenRPC document.
#[derive(Debug)]
pub struct OpenRPC {
    pub methods: Methods,
    pub components: Components,
}

} // verus!
