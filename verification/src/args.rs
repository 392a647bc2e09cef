//! The argument block of a configured segment, and how a provider reads it.
//!
//! A block is the JSON value that follows `args` in the configuration. A
//! provider accepts an object whose members are its own fields, each at most
//! once and each of the field's kind; a field that is left out keeps its
//! default.

use crate::text::str_eq;
use vstd::prelude::*;

verus! {

/// The value of one member of an argument block.
#[derive(Clone, Debug, PartialEq, Eq)]
pub enum ArgValue {
    Null,
    Bool(bool),
    /// A number; its value is not kept.
    Number,
    Text(String),
    /// An array or an object.
    Nested,
}

/// One member of an argument block.
#[derive(Clone, Debug, PartialEq, Eq)]
pub struct ArgField {
    pub name: String,
    pub value: ArgValue,
}

/// The argument block of a configured segment.
#[derive(Clone, Debug, PartialEq, Eq)]
pub enum ArgsBlob {
    /// The JSON value `null`.
    Null,
    /// An object, with its members in order.
    Object(Vec<ArgField>),
    /// Any other JSON value.
    Other,
}

/// Why an argument block was refused. The number is the position of the
/// offending member in the block.
#[derive(Copy, Clone, Debug, PartialEq, Eq, Structural)]
pub enum DecodeError {
    /// The block is no object.
    NotAnObject,
    /// The member is no field of the provider.
    UnknownField(usize),
    /// The member repeats an earlier one.
    DuplicateField(usize),
    /// The member's value is not of the field's kind.
    InvalidValue(usize),
}

/// What kind of value a field takes.
#[derive(Copy, Clone, Debug, PartialEq, Eq, Structural)]
pub enum FieldKind {
    Flag,
    Number,
    Text,
}

impl ArgValue {
    /// Whether the value is of the kind `kind`.
    pub open spec fn is_kind(self, kind: FieldKind) -> bool {
        match kind {
            FieldKind::Flag => self is Bool,
            FieldKind::Number => self is Number,
            FieldKind::Text => self is Text,
        }
    }

    /// Whether the value is of the kind `kind`.
    pub fn has_kind(&self, kind: FieldKind) -> (b: bool)
        ensures
            b == self.is_kind(kind),
    {
        match kind {
            FieldKind::Flag => match self {
                ArgValue::Bool(_) => true,
                _ => false,
            },
            FieldKind::Number => match self {
                ArgValue::Number => true,
                _ => false,
            },
            FieldKind::Text => match self {
                ArgValue::Text(_) => true,
                _ => false,
            },
        }
    }
}

/// The position of `name` among `names`, if it is one of them.
pub open spec fn field_position(names: Seq<&'static str>, name: Seq<char>) -> Option<int>
    decreases names.len(),
{
    if names.len() == 0 {
        None
    } else if names.last()@ == name {
        Some(names.len() - 1)
    } else {
        field_position(names.drop_last(), name)
    }
}

/// Reads the first `upto` members of a block against the fields `names` of
/// kinds `kinds`: for each field the position of the member that sets it, or
/// the first member that is refused.
pub open spec fn slots_after(
    fields: Seq<ArgField>,
    names: Seq<&'static str>,
    kinds: Seq<FieldKind>,
    upto: int,
) -> Result<Seq<Option<usize>>, DecodeError>
    decreases upto,
{
    if upto <= 0 {
        Ok(Seq::new(names.len(), |i: int| None::<usize>))
    } else {
        match slots_after(fields, names, kinds, upto - 1) {
            Err(e) => Err(e),
            Ok(slots) => {
                let at = (upto - 1) as usize;
                match field_position(names, fields[upto - 1].name@) {
                    None => Err(DecodeError::UnknownField(at)),
                    Some(p) => if slots[p] is Some {
                        Err(DecodeError::DuplicateField(at))
                    } else if !fields[upto - 1].value.is_kind(kinds[p]) {
                        Err(DecodeError::InvalidValue(at))
                    } else {
                        Ok(slots.update(p, Some(at)))
                    },
                }
            },
        }
    }
}

/// Reads a block against the fields `names` of kinds `kinds`.
pub open spec fn slots_of(blob: ArgsBlob, names: Seq<&'static str>, kinds: Seq<FieldKind>) -> Result<
    Seq<Option<usize>>,
    DecodeError,
> {
    match blob {
        ArgsBlob::Object(fields) => slots_after(fields@, names, kinds, fields@.len() as int),
        _ => Err(DecodeError::NotAnObject),
    }
}

/// Whether `slots` can be what reading `fields` gave: one slot for each field,
/// each empty or the position of a member of the field's kind.
pub open spec fn slots_fit(
    slots: Seq<Option<usize>>,
    fields: Seq<ArgField>,
    kinds: Seq<FieldKind>,
) -> bool {
    &&& slots.len() == kinds.len()
    &&& forall|p: int|
        0 <= p < slots.len() ==> match #[trigger] slots[p] {
            Some(at) => at < fields.len() && fields[at as int].value.is_kind(kinds[p]),
            None => true,
        }
}

/// What reading members gives fits the members.
pub proof fn lemma_slots_fit(
    fields: Seq<ArgField>,
    names: Seq<&'static str>,
    kinds: Seq<FieldKind>,
    upto: int,
)
    requires
        names.len() == kinds.len(),
        0 <= upto <= fields.len() <= usize::MAX,
    ensures
        match slots_after(fields, names, kinds, upto) {
            Ok(slots) => slots_fit(slots, fields, kinds),
            Err(_) => true,
        },
    decreases upto,
{
    if upto > 0 {
        lemma_slots_fit(fields, names, kinds, upto - 1);
        lemma_field_position(names, fields[upto - 1].name@);
        match slots_after(fields, names, kinds, upto) {
            Ok(slots) => {
                let before = slots_after(fields, names, kinds, upto - 1)->Ok_0;
                let p = field_position(names, fields[upto - 1].name@)->Some_0;
                assert(slots == before.update(p, Some((upto - 1) as usize)));
                assert forall|q: int| 0 <= q < slots.len() implies match #[trigger] slots[q] {
                    Some(at) => at < fields.len() && fields[at as int].value.is_kind(kinds[q]),
                    None => true,
                } by {
                    if q != p {
                        assert(slots[q] == before[q]);
                    }
                }
            },
            Err(_) => {},
        }
    }
}

/// A position that is found is the position of the name; where none is
/// found, the name is none of the names.
pub proof fn lemma_field_position(names: Seq<&'static str>, name: Seq<char>)
    ensures
        match field_position(names, name) {
            Some(p) => 0 <= p < names.len() && names[p]@ == name,
            None => forall|i: int| 0 <= i < names.len() ==> (#[trigger] names[i])@ != name,
        },
    decreases names.len(),
{
    if names.len() > 0 && names.last()@ != name {
        lemma_field_position(names.drop_last(), name);
        match field_position(names.drop_last(), name) {
            Some(p) => {
                assert(names.drop_last()[p] == names[p]);
            },
            None => {
                assert forall|i: int| 0 <= i < names.len() implies (#[trigger] names[i])@
                    != name by {
                    if i < names.len() - 1 {
                        assert(names.drop_last()[i] == names[i]);
                    }
                }
            },
        }
    }
}

/// Once a member is refused, the members after it change nothing.
pub proof fn lemma_refusal_stays(
    fields: Seq<ArgField>,
    names: Seq<&'static str>,
    kinds: Seq<FieldKind>,
    upto: int,
    end: int,
)
    requires
        0 <= upto <= end,
        slots_after(fields, names, kinds, upto) is Err,
    ensures
        slots_after(fields, names, kinds, end) == slots_after(fields, names, kinds, upto),
    decreases end - upto,
{
    if upto < end {
        lemma_refusal_stays(fields, names, kinds, upto, end - 1);
    }
}

fn position_of(names: &Vec<&'static str>, name: &str) -> (r: Option<usize>)
    ensures
        match r {
            Some(p) => field_position(names@, name@) == Some(p as int) && p < names.len(),
            None => field_position(names@, name@) is None,
        },
{
    let mut i: usize = names.len();
    assert(names@.take(i as int) =~= names@);
    while i > 0
        invariant
            i <= names.len(),
            field_position(names@, name@) == field_position(names@.take(i as int), name@),
        decreases i,
    {
        let ghost cur = names@.take(i as int);
        assert(cur.drop_last() =~= names@.take(i as int - 1));
        assert(cur.last() == names@[i as int - 1]);
        i -= 1;
        if str_eq(names[i], name) {
            return Some(i);
        }
    }
    None
}

/// Reads the members `fields` against the fields `names` of kinds `kinds`.
pub fn read_fields(fields: &Vec<ArgField>, names: &Vec<&'static str>, kinds: &Vec<FieldKind>) -> (r:
    Result<Vec<Option<usize>>, DecodeError>)
    requires
        names.len() == kinds.len(),
    ensures
        match r {
            Ok(slots) => slots_after(fields@, names@, kinds@, fields@.len() as int) == Ok::<
                Seq<Option<usize>>,
                DecodeError,
            >(slots@) && slots_fit(slots@, fields@, kinds@),
            Err(e) => slots_after(fields@, names@, kinds@, fields@.len() as int) == Err::<
                Seq<Option<usize>>,
                DecodeError,
            >(e),
        },
{
    let mut slots: Vec<Option<usize>> = Vec::new();
    let mut n: usize = 0;
    while n < names.len()
        invariant
            n <= names.len(),
            slots@ == Seq::new(n as nat, |i: int| None::<usize>),
        decreases names.len() - n,
    {
        slots.push(None);
        n += 1;
        assert(slots@ =~= Seq::new(n as nat, |i: int| None::<usize>));
    }
    let mut i: usize = 0;
    while i < fields.len()
        invariant
            i <= fields.len(),
            names.len() == kinds.len(),
            slots.len() == names.len(),
            slots_after(fields@, names@, kinds@, i as int) == Ok::<Seq<Option<usize>>, DecodeError>(
                slots@,
            ),
        decreases fields.len() - i,
    {
        proof {
            if slots_after(fields@, names@, kinds@, i as int + 1) is Err {
                lemma_refusal_stays(fields@, names@, kinds@, i as int + 1, fields@.len() as int);
            }
        }
        match position_of(names, fields[i].name.as_str()) {
            None => {
                return Err(DecodeError::UnknownField(i));
            },
            Some(p) => {
                if slots[p].is_some() {
                    return Err(DecodeError::DuplicateField(i));
                }
                if !fields[i].value.has_kind(kinds[p]) {
                    return Err(DecodeError::InvalidValue(i));
                }
                slots.set(p, Some(i));
            },
        }
        i += 1;
    }
    proof {
        lemma_slots_fit(fields@, names@, kinds@, fields@.len() as int);
    }
    Ok(slots)
}

/// Reads `blob` against the fields `names` of kinds `kinds`: for each field
/// the position of the member that sets it.
pub fn read_slots(blob: &ArgsBlob, names: &Vec<&'static str>, kinds: &Vec<FieldKind>) -> (r: Result<
    Vec<Option<usize>>,
    DecodeError,
>)
    requires
        names.len() == kinds.len(),
    ensures
        match r {
            Ok(slots) => slots_of(*blob, names@, kinds@) == Ok::<Seq<Option<usize>>, DecodeError>(
                slots@,
            ),
            Err(e) => slots_of(*blob, names@, kinds@) == Err::<Seq<Option<usize>>, DecodeError>(e),
        },
{
    match blob {
        ArgsBlob::Object(fields) => read_fields(fields, names, kinds),
        _ => Err(DecodeError::NotAnObject),
    }
}

/// The flag that a slot stands for: the member's value, or `default` where
/// the field was left out.
pub open spec fn flag_at(fields: Seq<ArgField>, slot: Option<usize>, default: bool) -> bool {
    match slot {
        Some(at) => match fields[at as int].value {
            ArgValue::Bool(b) => b,
            _ => default,
        },
        None => default,
    }
}

/// The flag that a slot stands for.
pub fn flag_of(fields: &Vec<ArgField>, slot: Option<usize>, default: bool) -> (b: bool)
    requires
        slot matches Some(at) ==> at < fields.len(),
    ensures
        b == flag_at(fields@, slot, default),
{
    match slot {
        Some(at) => match &fields[at].value {
            ArgValue::Bool(b) => *b,
            _ => default,
        },
        None => default,
    }
}

} // verus!
