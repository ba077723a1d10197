//! Typed values and the mappings from parameter names to values.

use crate::text::str_eq;
use vstd::prelude::*;

verus! {

/// The primitive types that a parameter or an output can have.
#[derive(Clone, Copy, Debug, PartialEq, Eq, Hash, Structural)]
pub enum ParameterKind {
    String,
    Integer,
    Boolean,
}

/// A value of one of the primitive types.
#[derive(Debug)]
pub enum ParameterValue {
    String(String),
    Integer(i32),
    Boolean(bool),
}

/// What a value is, as the contracts speak of it.
pub enum Value {
    String(Seq<char>),
    Integer(i32),
    Boolean(bool),
}

impl Value {
    /// The primitive type of the value.
    pub open spec fn kind(self) -> ParameterKind {
        match self {
            Value::String(_) => ParameterKind::String,
            Value::Integer(_) => ParameterKind::Integer,
            Value::Boolean(_) => ParameterKind::Boolean,
        }
    }
}

impl View for ParameterValue {
    type V = Value;

    open spec fn view(&self) -> Value {
        match self {
            ParameterValue::String(text) => Value::String(text@),
            ParameterValue::Integer(number) => Value::Integer(*number),
            ParameterValue::Boolean(flag) => Value::Boolean(*flag),
        }
    }
}

impl Clone for ParameterValue {
    fn clone(&self) -> (copy: Self)
        ensures
            copy == *self,
    {
        match self {
            ParameterValue::String(text) => ParameterValue::String(text.clone()),
            ParameterValue::Integer(number) => ParameterValue::Integer(*number),
            ParameterValue::Boolean(flag) => ParameterValue::Boolean(*flag),
        }
    }
}

impl PartialEq for ParameterValue {
    fn eq(&self, other: &Self) -> (same: bool) {
        match (self, other) {
            (ParameterValue::String(a), ParameterValue::String(b)) => str_eq(
                a.as_str(),
                b.as_str(),
            ),
            (ParameterValue::Integer(a), ParameterValue::Integer(b)) => *a == *b,
            (ParameterValue::Boolean(a), ParameterValue::Boolean(b)) => *a == *b,
            _ => false,
        }
    }
}

impl vstd::std_specs::cmp::PartialEqSpecImpl for ParameterValue {
    open spec fn obeys_eq_spec() -> bool {
        true
    }

    open spec fn eq_spec(&self, other: &Self) -> bool {
        self@ == other@
    }
}

impl ParameterValue {
    /// The primitive type of the value.
    pub fn kind(&self) -> (kind: ParameterKind)
        ensures
            kind == self@.kind(),
    {
        match self {
            ParameterValue::String(_) => ParameterKind::String,
            ParameterValue::Integer(_) => ParameterKind::Integer,
            ParameterValue::Boolean(_) => ParameterKind::Boolean,
        }
    }
}

/// One name bound to one value, as the contracts speak of it.
pub struct Binding {
    pub name: Seq<char>,
    pub value: Value,
}

/// Whether no name is bound twice in `bindings`.
pub open spec fn distinct_names(bindings: Seq<Binding>) -> bool {
    forall|i: int, j: int|
        0 <= i < j < bindings.len() ==> (#[trigger] bindings[i]).name != (
        #[trigger] bindings[j]).name
}

/// Whether `name` is bound at `at` in `bindings`.
pub open spec fn bound_at(bindings: Seq<Binding>, name: Seq<char>, at: int) -> bool {
    0 <= at < bindings.len() && bindings[at].name == name
}

/// Whether `name` is bound in `bindings`.
pub open spec fn binds(bindings: Seq<Binding>, name: Seq<char>) -> bool {
    exists|at: int| bound_at(bindings, name, at)
}

/// Where `name` is bound in `bindings`. Meaningful where it is bound.
pub open spec fn place_of(bindings: Seq<Binding>, name: Seq<char>) -> int {
    choose|at: int| bound_at(bindings, name, at)
}

/// The value that `bindings` gives to `name`, if it gives one.
pub open spec fn value_of(bindings: Seq<Binding>, name: Seq<char>) -> Option<Value> {
    if binds(bindings, name) {
        Some(bindings[place_of(bindings, name)].value)
    } else {
        None
    }
}

/// The text that `bindings` gives to `name`, or no text where it gives none.
pub open spec fn text_of(bindings: Seq<Binding>, name: Seq<char>) -> Seq<char> {
    match value_of(bindings, name) {
        Some(Value::String(text)) => text,
        _ => Seq::empty(),
    }
}

/// The number that `bindings` gives to `name`, or zero where it gives none.
pub open spec fn number_of(bindings: Seq<Binding>, name: Seq<char>) -> i32 {
    match value_of(bindings, name) {
        Some(Value::Integer(number)) => number,
        _ => 0,
    }
}

/// The flag that `bindings` gives to `name`, or `false` where it gives none.
pub open spec fn flag_of(bindings: Seq<Binding>, name: Seq<char>) -> bool {
    match value_of(bindings, name) {
        Some(Value::Boolean(flag)) => flag,
        _ => false,
    }
}

/// `bindings` with `name` bound to `value`: in place where the name was bound
/// before, at the end where it was not.
pub open spec fn bind(bindings: Seq<Binding>, name: Seq<char>, value: Value) -> Seq<Binding> {
    if binds(bindings, name) {
        bindings.update(place_of(bindings, name), Binding { name, value })
    } else {
        bindings.push(Binding { name, value })
    }
}

/// In a mapping without repeated names, a name is bound at one place only.
pub proof fn lemma_one_place(bindings: Seq<Binding>, name: Seq<char>, at: int)
    requires
        distinct_names(bindings),
        bound_at(bindings, name, at),
    ensures
        binds(bindings, name),
        place_of(bindings, name) == at,
        value_of(bindings, name) == Some(bindings[at].value),
{
    let place = place_of(bindings, name);
    if place < at {
        assert(bindings[place].name != bindings[at].name);
    } else if at < place {
        assert(bindings[at].name != bindings[place].name);
    }
}

/// Binding a name keeps the names distinct, gives that name the new value and
/// leaves every other name as it was.
pub proof fn lemma_bind(bindings: Seq<Binding>, name: Seq<char>, value: Value, other: Seq<char>)
    requires
        distinct_names(bindings),
    ensures
        distinct_names(bind(bindings, name, value)),
        value_of(bind(bindings, name, value), name) == Some(value),
        other != name ==> value_of(bind(bindings, name, value), other) == value_of(
            bindings,
            other,
        ),
{
    let bound = bind(bindings, name, value);
    if binds(bindings, name) {
        let place = place_of(bindings, name);
        assert forall|i: int, j: int| 0 <= i < j < bound.len() implies (#[trigger] bound[i]).name
            != (#[trigger] bound[j]).name by {
            assert(bindings[i].name != bindings[j].name);
        }
        assert(bound_at(bound, name, place));
        lemma_one_place(bound, name, place);
    } else {
        assert forall|i: int, j: int| 0 <= i < j < bound.len() implies (#[trigger] bound[i]).name
            != (#[trigger] bound[j]).name by {
            if j < bindings.len() {
                assert(bindings[i].name != bindings[j].name);
            } else {
                assert(!bound_at(bindings, name, i));
            }
        }
        assert(bound_at(bound, name, bindings.len() as int));
        lemma_one_place(bound, name, bindings.len() as int);
    }
    if other != name {
        if binds(bindings, other) {
            let place = place_of(bindings, other);
            assert(bound_at(bound, other, place));
            lemma_one_place(bound, other, place);
        } else if binds(bound, other) {
            let place = place_of(bound, other);
            assert(bound_at(bindings, other, place));
        }
    }
}

/// A mapping from names to values in which no name occurs twice. It keeps the
/// order in which the names were first bound.
#[derive(Debug)]
pub struct ValueMap {
    entries: Vec<Entry>,
}

/// One entry of a mapping.
#[derive(Debug)]
struct Entry {
    name: String,
    value: ParameterValue,
}

impl View for Entry {
    type V = Binding;

    closed spec fn view(&self) -> Binding {
        Binding { name: self.name@, value: self.value@ }
    }
}

impl View for ValueMap {
    type V = Seq<Binding>;

    closed spec fn view(&self) -> Seq<Binding> {
        Seq::new(self.entries@.len(), |i: int| self.entries@[i]@)
    }
}

impl ValueMap {
    #[verifier::type_invariant]
    spec fn well_formed(self) -> bool {
        distinct_names(self@)
    }

    /// The mapping that binds no name.
    pub fn new() -> (empty: ValueMap)
        ensures
            empty@ == Seq::<Binding>::empty(),
    {
        let empty = ValueMap { entries: Vec::new() };
        assert(empty@ =~= Seq::<Binding>::empty());
        empty
    }

    /// How many names are bound.
    pub fn len(&self) -> (count: usize)
        ensures
            count == self@.len(),
            distinct_names(self@),
    {
        proof {
            use_type_invariant(self);
        }
        self.entries.len()
    }

    /// The name that was bound as the `at`-th.
    pub fn name_at(&self, at: usize) -> (name: &str)
        requires
            at < self@.len(),
        ensures
            name@ == self@[at as int].name,
    {
        self.entries[at].name.as_str()
    }

    /// The value of the name that was bound as the `at`-th.
    pub fn value_at(&self, at: usize) -> (value: &ParameterValue)
        requires
            at < self@.len(),
        ensures
            value@ == self@[at as int].value,
    {
        &self.entries[at].value
    }

    /// Where `name` is bound, if it is.
    fn find(&self, name: &str) -> (place: Option<usize>)
        ensures
            match place {
                Some(at) => bound_at(self@, name@, at as int) && place_of(self@, name@) == at,
                None => !binds(self@, name@),
            },
    {
        proof {
            use_type_invariant(self);
        }
        let mut at: usize = 0;
        while at < self.entries.len()
            invariant
                at <= self.entries@.len(),
                self.entries@.len() == self@.len(),
                distinct_names(self@),
                forall|k: int| 0 <= k < at ==> !bound_at(self@, name@, k),
            decreases self.entries@.len() - at,
        {
            if str_eq(self.entries[at].name.as_str(), name) {
                proof {
                    lemma_one_place(self@, name@, at as int);
                }
                return Some(at);
            }
            at += 1;
        }
        None
    }

    /// The value bound to `name`, if there is one.
    pub fn get(&self, name: &str) -> (value: Option<&ParameterValue>)
        ensures
            match value {
                Some(found) => value_of(self@, name@) == Some(found@),
                None => value_of(self@, name@) is None,
            },
    {
        match self.find(name) {
            Some(at) => Some(&self.entries[at].value),
            None => None,
        }
    }

    /// The text bound to `name`, or no text where none is bound.
    pub fn text(&self, name: &str) -> (text: String)
        ensures
            text@ == text_of(self@, name@),
    {
        match self.get(name) {
            Some(ParameterValue::String(text)) => text.clone(),
            _ => String::new(),
        }
    }

    /// The number bound to `name`, or zero where none is bound.
    pub fn number(&self, name: &str) -> (number: i32)
        ensures
            number == number_of(self@, name@),
    {
        match self.get(name) {
            Some(ParameterValue::Integer(number)) => *number,
            _ => 0,
        }
    }

    /// The flag bound to `name`, or `false` where none is bound.
    pub fn flag(&self, name: &str) -> (flag: bool)
        ensures
            flag == flag_of(self@, name@),
    {
        match self.get(name) {
            Some(ParameterValue::Boolean(flag)) => *flag,
            _ => false,
        }
    }

    /// Binds `name` to `value`, in place of what it was bound to before.
    pub fn insert(&mut self, name: String, value: ParameterValue)
        ensures
            final(self)@ == bind(old(self)@, name@, value@),
    {
        proof {
            use_type_invariant(&*self);
            lemma_bind(self@, name@, value@, name@);
        }
        let place = self.find(name.as_str());
        let mut entries: Vec<Entry> = Vec::new();
        std::mem::swap(&mut entries, &mut self.entries);
        match place {
            Some(at) => {
                entries.set(at, Entry { name, value });
            },
            None => {
                entries.push(Entry { name, value });
            },
        }
        let ghost bound = Seq::new(entries@.len(), |i: int| entries@[i]@);
        assert(bound =~= bind(old(self)@, name@, value@));
        self.entries = entries;
        assert(self@ =~= bound);
    }
}

impl Clone for ValueMap {
    fn clone(&self) -> (copy: Self)
        ensures
            copy@ == self@,
    {
        proof {
            use_type_invariant(self);
        }
        let mut entries: Vec<Entry> = Vec::new();
        let mut at: usize = 0;
        while at < self.entries.len()
            invariant
                at <= self.entries@.len(),
                entries@.len() == at,
                forall|k: int| 0 <= k < at ==> entries@[k]@ == self.entries@[k]@,
            decreases self.entries@.len() - at,
        {
            let entry = &self.entries[at];
            entries.push(Entry { name: entry.name.clone(), value: entry.value.clone() });
            at += 1;
        }
        assert(Seq::new(entries@.len(), |i: int| entries@[i]@) =~= self@);
        ValueMap { entries }
    }
}

} // verus!
