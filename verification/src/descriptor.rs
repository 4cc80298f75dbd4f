//! The description of a type under derivation, as a front-end hands it to the
//! engine, and the ways in which a derivation is refused.

use vstd::prelude::*;
use vstd::string::*;

verus! {

/// The kind of type definition that a descriptor stands for.
#[derive(Clone, Copy, Debug, PartialEq, Eq, Structural)]
pub enum Shape {
    /// A record whose fields have names.
    NamedRecord,
    /// A record whose fields are known by their position.
    PositionalRecord,
    /// A record without fields.
    EmptyRecord,
    /// A tagged union: one of several variants, told apart by a tag.
    TaggedUnion,
    /// An untagged union of overlapping fields.
    OpaqueUnion,
}

/// Why a derivation was refused.
#[derive(Clone, Copy, Debug, PartialEq, Eq, Structural)]
pub enum DeriveError {
    /// The type is an opaque union, which has no structural decomposition.
    UnsupportedShape,
    /// The type is a tagged union, for which no derivation exists yet.
    NotYetImplemented,
    /// The fields of the descriptor do not agree with its shape.
    MalformedInput,
}

/// One generic parameter of the type under derivation.
#[derive(Clone, Debug, PartialEq, Eq)]
pub struct TypeParameter {
    /// The parameter as an implementation has to declare it, bounds included:
    /// `T: Clone`, `'a`, `const N: usize`.
    pub declaration: String,
    /// The parameter as the type is applied to it: `T`, `'a`, `N`.
    pub name: String,
}

/// One field of a record.
#[derive(Clone, Debug, PartialEq, Eq)]
pub struct FieldDescriptor {
    /// The field's name; `None` for a positional field, which is known by its
    /// place among the fields.
    pub name: Option<String>,
    /// The field's declared type.
    pub ty: String,
}

/// The type under derivation.
#[derive(Clone, Debug, PartialEq, Eq)]
pub struct TypeDescriptor {
    /// The type's identifier.
    pub name: String,
    /// Its generic parameters, in declaration order.
    pub params: Vec<TypeParameter>,
    /// The constraints that its declaration already puts on the parameters.
    pub constraints: Vec<String>,
    /// Its fields, in declaration order.
    pub fields: Vec<FieldDescriptor>,
    /// What kind of definition it is.
    pub shape: Shape,
}

/// The mathematical content of a `TypeParameter`.
pub struct TypeParameterView {
    pub declaration: Seq<char>,
    pub name: Seq<char>,
}

/// The mathematical content of a `FieldDescriptor`.
pub struct FieldView {
    pub name: Option<Seq<char>>,
    pub ty: Seq<char>,
}

/// The mathematical content of a `TypeDescriptor`.
pub struct TypeDescriptorView {
    pub name: Seq<char>,
    pub params: Seq<TypeParameterView>,
    pub constraints: Seq<Seq<char>>,
    pub fields: Seq<FieldView>,
    pub shape: Shape,
}

/// The texts that a sequence of strings holds.
pub open spec fn texts(strings: Seq<String>) -> Seq<Seq<char>> {
    strings.map_values(|s: String| s@)
}

/// The contents of a sequence of generic parameters.
pub open spec fn parameters_view(params: Seq<TypeParameter>) -> Seq<TypeParameterView> {
    params.map_values(|p: TypeParameter| p@)
}

/// The contents of a sequence of fields.
pub open spec fn fields_view(fields: Seq<FieldDescriptor>) -> Seq<FieldView> {
    fields.map_values(|f: FieldDescriptor| f@)
}

impl View for TypeParameter {
    type V = TypeParameterView;

    open spec fn view(&self) -> TypeParameterView {
        TypeParameterView { declaration: self.declaration@, name: self.name@ }
    }
}

impl View for FieldDescriptor {
    type V = FieldView;

    open spec fn view(&self) -> FieldView {
        FieldView {
            name: match self.name {
                Some(name) => Some(name@),
                None => None,
            },
            ty: self.ty@,
        }
    }
}

impl View for TypeDescriptor {
    type V = TypeDescriptorView;

    open spec fn view(&self) -> TypeDescriptorView {
        TypeDescriptorView {
            name: self.name@,
            params: parameters_view(self.params@),
            constraints: texts(self.constraints@),
            fields: fields_view(self.fields@),
            shape: self.shape,
        }
    }
}

impl TypeDescriptorView {
    /// Whether the fields agree with the shape: all of them named in a named
    /// record, none of them named in a positional record, none at all in an
    /// empty record. A union's fields are not looked at.
    pub open spec fn well_formed(self) -> bool {
        match self.shape {
            Shape::NamedRecord => forall|i: int|
                0 <= i < self.fields.len() ==> (#[trigger] self.fields[i]).name.is_some(),
            Shape::PositionalRecord => forall|i: int|
                0 <= i < self.fields.len() ==> (#[trigger] self.fields[i]).name.is_none(),
            Shape::EmptyRecord => self.fields.len() == 0,
            Shape::TaggedUnion => true,
            Shape::OpaqueUnion => true,
        }
    }

    /// The refusal that the descriptor meets, if any: unions by their shape,
    /// records when their fields do not agree with it.
    pub open spec fn refusal(self) -> Option<DeriveError> {
        match self.shape {
            Shape::OpaqueUnion => Some(DeriveError::UnsupportedShape),
            Shape::TaggedUnion => Some(DeriveError::NotYetImplemented),
            _ => if self.well_formed() {
                None
            } else {
                Some(DeriveError::MalformedInput)
            },
        }
    }
}

impl TypeDescriptor {
    /// Whether every field is named (`named`) or every field is positional
    /// (`!named`).
    fn fields_all(&self, named: bool) -> (all: bool)
        ensures
            all == forall|i: int|
                0 <= i < self@.fields.len() ==> (#[trigger] self@.fields[i]).name.is_some()
                    == named,
    {
        let mut i: usize = 0;
        while i < self.fields.len()
            invariant
                i <= self.fields.len(),
                forall|j: int| 0 <= j < i ==> (#[trigger] self@.fields[j]).name.is_some() == named,
            decreases self.fields.len() - i,
        {
            if self.fields[i].name.is_some() != named {
                assert(self@.fields[i as int].name.is_some() != named);
                return false;
            }
            i += 1;
        }
        true
    }

    /// Checks that the fields agree with the shape.
    pub fn is_well_formed(&self) -> (ok: bool)
        ensures
            ok == self@.well_formed(),
    {
        match self.shape {
            Shape::NamedRecord => self.fields_all(true),
            Shape::PositionalRecord => self.fields_all(false),
            Shape::EmptyRecord => self.fields.len() == 0,
            Shape::TaggedUnion => true,
            Shape::OpaqueUnion => true,
        }
    }

    /// Decides whether a representation can be derived for this type, and if
    /// not, why not.
    pub fn check(&self) -> (outcome: Result<(), DeriveError>)
        ensures
            outcome == match self@.refusal() {
                Some(error) => Err::<(), DeriveError>(error),
                None => Ok(()),
            },
    {
        match self.shape {
            Shape::OpaqueUnion => Err(DeriveError::UnsupportedShape),
            Shape::TaggedUnion => Err(DeriveError::NotYetImplemented),
            _ => if self.is_well_formed() {
                Ok(())
            } else {
                Err(DeriveError::MalformedInput)
            },
        }
    }
}

impl DeriveError {
    /// What the refusal says about the shape.
    pub open spec fn reason(self) -> Seq<char> {
        match self {
            DeriveError::UnsupportedShape => "unions have no structural representation"@,
            DeriveError::NotYetImplemented => "tagged unions are not implemented yet"@,
            DeriveError::MalformedInput => "its fields do not agree with its shape"@,
        }
    }

    /// The message of the refusal for the type called `subject`.
    pub open spec fn message_text(self, subject: Seq<char>) -> Seq<char> {
        "`Generic` cannot be derived for `"@ + subject + "`: "@ + self.reason()
    }

    /// The message with which a build fails: it names the offending type and
    /// says what about its shape is refused.
    pub fn message(&self, subject: &str) -> (text: String)
        ensures
            text@ == self.message_text(subject@),
    {
        let mut text = String::from_str("`Generic` cannot be derived for `");
        text.append(subject);
        text.append("`: ");
        match self {
            DeriveError::UnsupportedShape => text.append(
                "unions have no structural representation",
            ),
            DeriveError::NotYetImplemented => text.append("tagged unions are not implemented yet"),
            DeriveError::MalformedInput => text.append("its fields do not agree with its shape"),
        }
        text
    }
}

} // verus!
