//! Instruction descriptors: what the catalogue says of one instruction.

use crate::catalog::Operation;
use crate::values::ParameterKind;
use vstd::prelude::*;

verus! {

/// A parameter or an output of an instruction, as the contracts speak of it.
pub struct ParameterModel {
    /// The name by which a call binds the parameter.
    pub id: Seq<char>,
    /// The name under which the parameter is shown.
    pub name: Seq<char>,
    /// The primitive type of its values.
    pub kind: ParameterKind,
}

/// A descriptor, as the contracts speak of it.
pub struct DescriptorModel {
    pub id: Seq<char>,
    pub name: Seq<char>,
    pub description: Seq<char>,
    pub parameters: Seq<ParameterModel>,
    pub outputs: Seq<ParameterModel>,
    pub flags: InstructionFlags,
    pub operation: Operation,
}

/// A parameter or an output of an instruction.
#[derive(Debug)]
pub struct ParameterSpec {
    /// The name by which a call binds the parameter.
    pub id: String,
    /// The name under which the parameter is shown.
    pub name: String,
    /// The primitive type of its values.
    pub kind: ParameterKind,
}

/// The flags of an instruction.
#[derive(Clone, Copy, Debug, PartialEq, Eq, Structural)]
pub struct InstructionFlags {
    /// The instruction may run without an operator watching.
    pub automatic: bool,
}

/// What the catalogue says of one instruction. A descriptor is made from the
/// operation that carries the instruction out and cannot be changed afterwards.
#[derive(Debug)]
pub struct Descriptor {
    id: String,
    name: String,
    description: String,
    parameters: Vec<ParameterSpec>,
    outputs: Vec<ParameterSpec>,
    flags: InstructionFlags,
    operation: Operation,
}

impl View for ParameterSpec {
    type V = ParameterModel;

    open spec fn view(&self) -> ParameterModel {
        ParameterModel { id: self.id@, name: self.name@, kind: self.kind }
    }
}

/// The parameters of `specs`, as the contracts speak of them.
pub open spec fn parameter_models(specs: Seq<ParameterSpec>) -> Seq<ParameterModel> {
    Seq::new(specs.len(), |i: int| specs[i]@)
}

/// What the catalogue says of the instruction that `operation` carries out.
pub open spec fn descriptor_of(operation: Operation) -> DescriptorModel {
    DescriptorModel {
        id: operation.spec_id(),
        name: operation.spec_name(),
        description: operation.spec_description(),
        parameters: operation.spec_parameters(),
        outputs: operation.spec_outputs(),
        flags: InstructionFlags { automatic: true },
        operation,
    }
}

/// A parameter or an output, as the contracts speak of it.
pub open spec fn parameter(id: Seq<char>, name: Seq<char>, kind: ParameterKind) -> ParameterModel {
    ParameterModel { id, name, kind }
}

/// The schema that declares nothing.
pub fn no_parameters() -> (schema: Vec<ParameterSpec>)
    ensures
        parameter_models(schema@) == Seq::<ParameterModel>::empty(),
{
    Vec::new()
}

/// `schema` with one more parameter after the ones it has.
pub fn and_parameter(schema: Vec<ParameterSpec>, id: &str, name: &str, kind: ParameterKind) -> (extended:
    Vec<ParameterSpec>)
    ensures
        parameter_models(extended@) == parameter_models(schema@).push(parameter(id@, name@, kind)),
{
    let mut extended = schema;
    extended.push(ParameterSpec::new(id, name, kind));
    extended
}

impl ParameterSpec {
    /// A parameter called `id`, shown as `name`, with values of type `kind`.
    pub fn new(id: &str, name: &str, kind: ParameterKind) -> (spec: ParameterSpec)
        ensures
            spec@ == (ParameterModel { id: id@, name: name@, kind }),
    {
        ParameterSpec { id: id.to_owned(), name: name.to_owned(), kind }
    }
}

impl View for Descriptor {
    type V = DescriptorModel;

    closed spec fn view(&self) -> DescriptorModel {
        DescriptorModel {
            id: self.id@,
            name: self.name@,
            description: self.description@,
            parameters: parameter_models(self.parameters@),
            outputs: parameter_models(self.outputs@),
            flags: self.flags,
            operation: self.operation,
        }
    }
}

impl Descriptor {
    #[verifier::type_invariant]
    spec fn from_catalogue(self) -> bool {
        self@ == descriptor_of(self.operation)
    }

    /// The descriptor of the instruction that `operation` carries out.
    pub fn of(operation: Operation) -> (descriptor: Descriptor)
        ensures
            descriptor@ == descriptor_of(operation),
    {
        Descriptor {
            id: operation.id().to_owned(),
            name: operation.name().to_owned(),
            description: operation.description().to_owned(),
            parameters: operation.parameters(),
            outputs: operation.outputs(),
            flags: InstructionFlags { automatic: true },
            operation,
        }
    }

    /// The stable identifier of the instruction.
    pub fn id(&self) -> (id: &str)
        ensures
            id@ == self@.id,
            self@ == descriptor_of(self@.operation),
    {
        proof {
            use_type_invariant(self);
        }
        self.id.as_str()
    }

    /// The name under which the instruction is shown.
    pub fn name(&self) -> (name: &str)
        ensures
            name@ == self@.name,
    {
        self.name.as_str()
    }

    /// What the instruction does, in a sentence or two.
    pub fn description(&self) -> (description: &str)
        ensures
            description@ == self@.description,
    {
        self.description.as_str()
    }

    /// The parameters that the instruction takes, in order.
    pub fn parameters(&self) -> (parameters: &Vec<ParameterSpec>)
        ensures
            parameter_models(parameters@) == self@.parameters,
    {
        &self.parameters
    }

    /// The values that the instruction gives back, in order.
    pub fn outputs(&self) -> (outputs: &Vec<ParameterSpec>)
        ensures
            parameter_models(outputs@) == self@.outputs,
    {
        &self.outputs
    }

    /// The flags of the instruction.
    pub fn flags(&self) -> (flags: InstructionFlags)
        ensures
            flags == self@.flags,
    {
        self.flags
    }

    /// The operation that carries the instruction out.
    pub fn operation(&self) -> (operation: Operation)
        ensures
            operation == self@.operation,
            self@ == descriptor_of(operation),
    {
        proof {
            use_type_invariant(self);
        }
        self.operation
    }
}

} // verus!
