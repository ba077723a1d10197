//! The registry: the instructions that an engine offers, in a fixed order.

use crate::catalog::{operation_with_id, standard_operations, Operation};
use crate::descriptor::{descriptor_of, Descriptor, DescriptorModel};
use vstd::prelude::*;

verus! {

/// The operation that `registry` lists under `id`, if it lists one.
pub open spec fn listed(registry: Seq<Operation>, id: Seq<char>) -> Option<Operation> {
    match operation_with_id(id) {
        Some(operation) => if registry.contains(operation) {
            Some(operation)
        } else {
            None
        },
        None => None,
    }
}

/// What `registry` says of its instructions, in its own order.
pub open spec fn catalogue(registry: Seq<Operation>) -> Seq<DescriptorModel> {
    Seq::new(registry.len(), |i: int| descriptor_of(registry[i]))
}

/// The descriptors of `descriptors`, as the contracts speak of them.
pub open spec fn descriptor_models(descriptors: Seq<Descriptor>) -> Seq<DescriptorModel> {
    Seq::new(descriptors.len(), |i: int| descriptors[i]@)
}

/// Whether no operation occurs twice in `registry`.
pub open spec fn without_repeats(registry: Seq<Operation>) -> bool {
    forall|i: int, j: int| 0 <= i < j < registry.len() ==> registry[i] != registry[j]
}

/// The instructions that an engine offers. It lists no instruction twice and
/// keeps the order of registration.
#[derive(Debug)]
pub struct Registry {
    descriptors: Vec<Descriptor>,
}

impl View for Registry {
    type V = Seq<Operation>;

    closed spec fn view(&self) -> Seq<Operation> {
        Seq::new(self.descriptors@.len(), |i: int| self.descriptors@[i]@.operation)
    }
}

impl Registry {
    #[verifier::type_invariant]
    spec fn well_formed(self) -> bool {
        without_repeats(self@)
    }

    /// The registry that offers nothing.
    pub fn new() -> (registry: Registry)
        ensures
            registry@ == Seq::<Operation>::empty(),
    {
        let registry = Registry { descriptors: Vec::new() };
        assert(registry@ =~= Seq::<Operation>::empty());
        registry
    }

    /// The registry of the whole catalogue, in the catalogue's order.
    pub fn standard() -> (registry: Registry)
        ensures
            registry@ == standard_operations(),
    {
        let mut registry = Registry::new();
        registry.register(Operation::Connect);
        registry.register(Operation::RunTransaction);
        registry.register(Operation::Screenshot);
        registry.register(Operation::DoesElementExist);
        registry.register(Operation::ComponentType);
        registry.register(Operation::VisualiseElement);
        registry.register(Operation::SetTextValue);
        registry.register(Operation::GetTextValue);
        registry.register(Operation::SendKey);
        registry.register(Operation::PressButton);
        registry.register(Operation::SetCheckbox);
        registry.register(Operation::SetComboBoxKey);
        registry.register(Operation::GridGetRowCount);
        registry.register(Operation::GridClickCell);
        registry.register(Operation::GridSelectColumn);
        registry.register(Operation::GridDeselectColumn);
        registry.register(Operation::GridContextMenu);
        registry.register(Operation::GridGetCellValue);
        registry.register(Operation::ShellSelectContextMenuItem);
        registry.register(Operation::GetStatusbarState);
        registry.register(Operation::TabSelect);
        registry.register(Operation::TableGetRowCount);
        registry.register(Operation::TableRowSelect);
        registry.register(Operation::TableCellGetId);
        assert(registry@ =~= standard_operations());
        registry
    }

    /// How many instructions are offered.
    pub fn len(&self) -> (count: usize)
        ensures
            count == self@.len(),
            without_repeats(self@),
    {
        proof {
            use_type_invariant(self);
        }
        self.descriptors.len()
    }

    /// The descriptor of the instruction that was registered as the `at`-th.
    pub fn get(&self, at: usize) -> (descriptor: &Descriptor)
        requires
            at < self@.len(),
        ensures
            descriptor@ == descriptor_of(self@[at as int]),
    {
        let descriptor = &self.descriptors[at];
        let _ = descriptor.operation();
        descriptor
    }

    /// Where `operation` is listed, if it is.
    fn place_of(&self, operation: Operation) -> (place: Option<usize>)
        ensures
            match place {
                Some(at) => at < self@.len() && self@[at as int] == operation,
                None => !self@.contains(operation),
            },
    {
        let mut at: usize = 0;
        while at < self.descriptors.len()
            invariant
                at <= self.descriptors@.len(),
                self.descriptors@.len() == self@.len(),
                forall|k: int| 0 <= k < at ==> self@[k] != operation,
            decreases self.descriptors@.len() - at,
        {
            if self.descriptors[at].operation() == operation {
                return Some(at);
            }
            at += 1;
        }
        None
    }

    /// Offers the instruction that `operation` carries out, after those that
    /// are offered already. Does nothing where it is offered already.
    pub fn register(&mut self, operation: Operation) -> (added: bool)
        ensures
            added == !old(self)@.contains(operation),
            final(self)@ == if added {
                old(self)@.push(operation)
            } else {
                old(self)@
            },
    {
        proof {
            use_type_invariant(&*self);
        }
        if self.place_of(operation).is_some() {
            return false;
        }
        let mut descriptors: Vec<Descriptor> = Vec::new();
        std::mem::swap(&mut descriptors, &mut self.descriptors);
        descriptors.push(Descriptor::of(operation));
        let ghost listing = Seq::new(descriptors@.len(), |i: int| descriptors@[i]@.operation);
        assert(listing =~= old(self)@.push(operation));
        self.descriptors = descriptors;
        assert(self@ =~= listing);
        true
    }

    /// The descriptor of the instruction called `id`, if it is offered.
    pub fn lookup(&self, id: &str) -> (found: Option<&Descriptor>)
        ensures
            match found {
                Some(descriptor) => listed(self@, id@) == Some(descriptor@.operation)
                    && descriptor@ == descriptor_of(descriptor@.operation),
                None => listed(self@, id@) is None,
            },
    {
        match Operation::with_id(id) {
            Some(operation) => match self.place_of(operation) {
                Some(at) => Some(self.get(at)),
                None => None,
            },
            None => None,
        }
    }

    /// The descriptors of all the instructions offered, in the order of
    /// registration.
    pub fn all(&self) -> (descriptors: Vec<Descriptor>)
        ensures
            descriptor_models(descriptors@) == catalogue(self@),
    {
        let mut descriptors: Vec<Descriptor> = Vec::new();
        let mut at: usize = 0;
        while at < self.descriptors.len()
            invariant
                at <= self.descriptors@.len(),
                self.descriptors@.len() == self@.len(),
                descriptors@.len() == at,
                forall|k: int| 0 <= k < at ==> descriptors@[k]@ == descriptor_of(self@[k]),
            decreases self.descriptors@.len() - at,
        {
            descriptors.push(Descriptor::of(self.descriptors[at].operation()));
            at += 1;
        }
        assert(descriptor_models(descriptors@) =~= catalogue(self@));
        descriptors
    }
}

} // verus!
