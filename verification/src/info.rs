//! What is known of a register before it is read: its name, its fields and
//! how each field's value is decoded.

use crate::chain::FieldValueEnumSeq;
use crate::field::Field;
use vstd::prelude::*;

verus! {

/// The description of a register type. Field names, fields and decoders are
/// three lists of one length, and position `i` in each of them belongs to the
/// same field: every implementation owes this, and the accessors say so.
pub trait RegisterDebugInfo {
    /// The chain of decoders of this register's fields.
    type FieldValueEnumTypes: FieldValueEnumSeq;

    /// The register's name.
    spec fn spec_name(&self) -> &'static str;

    /// The names of the register's fields, in declaration order.
    spec fn spec_field_names(&self) -> Seq<&'static str>;

    /// The register's fields, in declaration order.
    spec fn spec_fields(&self) -> Seq<Field>;

    /// The decoders of the register's fields, in declaration order.
    spec fn spec_field_value_enums(&self) -> Self::FieldValueEnumTypes;

    /// The register's name.
    fn name(&self) -> (name: &'static str)
        ensures
            name == self.spec_name(),
    ;

    /// The names of the register's fields: one for each field.
    fn field_names(&self) -> (names: &[&'static str])
        ensures
            names@ == self.spec_field_names(),
            names@.len() == self.spec_fields().len(),
    ;

    /// The register's fields: one for each decoder of the chain.
    fn fields(&self) -> (fields: &[Field])
        ensures
            fields@ == self.spec_fields(),
            fields@.len() == self.spec_field_value_enums().decoders().len(),
    ;

    /// The decoders of the register's fields: one for each field name.
    fn field_value_enums(&self) -> (enums: &Self::FieldValueEnumTypes)
        ensures
            *enums == self.spec_field_value_enums(),
            enums.decoders().len() == self.spec_field_names().len(),
    ;
}

/// A register description made of its parts, which holds them only if the
/// three lists agree in length.
pub struct RegisterDescriptor<S: FieldValueEnumSeq> {
    name: &'static str,
    field_names: &'static [&'static str],
    fields: &'static [Field],
    enums: S,
}

impl<S: FieldValueEnumSeq> RegisterDescriptor<S> {
    #[verifier::type_invariant]
    spec fn inv(self) -> bool {
        &&& self.field_names@.len() == self.fields@.len()
        &&& self.enums.decoders().len() == self.fields@.len()
    }

    /// Puts a register description together. There is none where the number
    /// of field names, of fields and of decoders are not all the same.
    pub fn new(
        name: &'static str,
        field_names: &'static [&'static str],
        fields: &'static [Field],
        enums: S,
    ) -> (descriptor: Option<Self>)
        ensures
            descriptor is Some <==> field_names@.len() == fields@.len() == enums.decoders().len(),
            descriptor matches Some(d) ==> {
                &&& d.spec_name() == name
                &&& d.spec_field_names() == field_names@
                &&& d.spec_fields() == fields@
                &&& d.spec_field_value_enums() == enums
            },
    {
        if field_names.len() == fields.len() && enums.has_len(fields.len()) {
            Some(RegisterDescriptor { name, field_names, fields, enums })
        } else {
            None
        }
    }
}

impl<S: FieldValueEnumSeq> RegisterDebugInfo for RegisterDescriptor<S> {
    type FieldValueEnumTypes = S;

    closed spec fn spec_name(&self) -> &'static str {
        self.name
    }

    closed spec fn spec_field_names(&self) -> Seq<&'static str> {
        self.field_names@
    }

    closed spec fn spec_fields(&self) -> Seq<Field> {
        self.fields@
    }

    closed spec fn spec_field_value_enums(&self) -> S {
        self.enums
    }

    fn name(&self) -> (name: &'static str) {
        self.name
    }

    fn field_names(&self) -> (names: &[&'static str]) {
        proof {
            use_type_invariant(self);
        }
        self.field_names
    }

    fn fields(&self) -> (fields: &[Field]) {
        proof {
            use_type_invariant(self);
        }
        self.fields
    }

    fn field_value_enums(&self) -> (enums: &S) {
        proof {
            use_type_invariant(self);
        }
        &self.enums
    }
}

} // verus!
