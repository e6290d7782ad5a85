//! Values whose concrete type is known only by a tag.
use vstd::prelude::*;

verus! {

/// Why an operation on type-erased values was refused.
#[derive(Clone, Copy, Debug, PartialEq, Eq, Structural)]
pub enum CurveError {
    /// The type of a value is not the type that was declared or asked for.
    TypeMismatch,
    /// A keyframe was added under another policy than its curve was
    /// registered with.
    PolicyMismatch,
}

/// The stable identity of a value type: its type path. Two identities name
/// the same type when their paths are equal. The view is the path.
#[derive(Debug, PartialEq, Eq)]
pub struct TypeIdentity {
    path: String,
}

impl View for TypeIdentity {
    type V = Seq<char>;

    closed spec fn view(&self) -> Seq<char> {
        self.path@
    }
}

impl Clone for TypeIdentity {
    fn clone(&self) -> (copy: Self)
        ensures
            copy@ == self@,
    {
        TypeIdentity { path: self.path.clone() }
    }
}

impl TypeIdentity {
    /// The identity of the type with the given path.
    pub fn new(path: &str) -> (identity: TypeIdentity)
        ensures
            identity@ == path@,
    {
        TypeIdentity { path: path.to_owned() }
    }

    /// The path of the type.
    pub fn type_path(&self) -> (path: &str)
        ensures
            path@ == self@,
    {
        self.path.as_str()
    }

    /// Whether the two identities name the same type.
    pub fn same_type(&self, other: &TypeIdentity) -> (same: bool)
        ensures
            same == (self@ == other@),
    {
        self.path == other.path
    }
}

/// A value of some concrete type, kept as an opaque payload under the
/// identity of that type. The payload is handed out only to one who names
/// the type it was stored as.
#[derive(Debug, PartialEq)]
pub struct ErasedValue<P> {
    type_identity: TypeIdentity,
    payload: P,
}

impl<P> ErasedValue<P> {
    /// The path of the type that the value was stored as.
    pub closed spec fn type_path(&self) -> Seq<char> {
        self.type_identity@
    }

    /// What the value holds.
    pub closed spec fn payload(&self) -> P {
        self.payload
    }

    /// Erases the type of `payload`, keeping `type_identity` as its tag.
    pub fn new(type_identity: TypeIdentity, payload: P) -> (value: ErasedValue<P>)
        ensures
            value.type_path() == type_identity@,
            value.payload() == payload,
    {
        ErasedValue { type_identity, payload }
    }

    /// The identity of the type that the value was stored as.
    pub fn type_identity(&self) -> (identity: &TypeIdentity)
        ensures
            identity@ == self.type_path(),
    {
        &self.type_identity
    }

    /// The payload, for one who expects the type that the value was stored
    /// as; `TypeMismatch` for one who expects another.
    pub fn downcast(&self, expected_type: &TypeIdentity) -> (outcome: Result<&P, CurveError>)
        ensures
            match outcome {
                Ok(payload) => self.type_path() == expected_type@ && *payload == self.payload(),
                Err(error) => self.type_path() != expected_type@ && error
                    == CurveError::TypeMismatch,
            },
    {
        if self.type_identity.same_type(expected_type) {
            Ok(&self.payload)
        } else {
            Err(CurveError::TypeMismatch)
        }
    }
}

impl<P> ErasedValue<P> {
    /// As [`Self::downcast`], but hands the payload over instead of lending
    /// it.
    pub fn downcast_into(self, expected_type: &TypeIdentity) -> (outcome: Result<P, CurveError>)
        ensures
            match outcome {
                Ok(payload) => self.type_path() == expected_type@ && payload == self.payload(),
                Err(error) => self.type_path() != expected_type@ && error
                    == CurveError::TypeMismatch,
            },
    {
        if self.type_identity.same_type(expected_type) {
            Ok(self.payload)
        } else {
            Err(CurveError::TypeMismatch)
        }
    }
}

impl<P: Clone> Clone for ErasedValue<P> {
    /// A clone keeps the type and clones the payload.
    fn clone(&self) -> (copy: Self)
        ensures
            copy.type_path() == self.type_path(),
            cloned(self.payload(), copy.payload()),
    {
        ErasedValue { type_identity: self.type_identity.clone(), payload: self.payload.clone() }
    }
}

} // verus!
