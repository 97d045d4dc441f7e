use crate::attribute::{check_repr_c, has_fixed_layout, Attribute};
use crate::error::{PipelineError, PipelineErrorView};
use crate::mapper::FieldDescriptor;
use crate::registry::{definition_text, StructRegistry};
use vstd::prelude::*;

verus! {

/// The body of a declaration that asks to be registered.
#[derive(Debug, PartialEq, Eq)]
pub enum ItemBody {
    /// A structure with named fields, in the order of their declaration.
    Struct(Vec<FieldDescriptor>),
    /// Anything else: an enumeration, a structure without named fields.
    Other,
}

/// A declaration that asks to be registered: its name, its attributes and its body.
#[derive(Debug, PartialEq, Eq)]
pub struct DeriveItem {
    pub name: String,
    pub attrs: Vec<Attribute>,
    pub body: ItemBody,
}

/// Registers the structure that `item` declares. The item must be a structure
/// with named fields and must fix its layout with `repr(C)`; then its
/// shader-side definition is stored under its name, replacing an earlier entry
/// of that name. Otherwise the registry stays as it was.
pub fn derive_struct(registry: &mut StructRegistry, item: &DeriveItem) -> (r: Result<
    (),
    PipelineError,
>)
    ensures
        match item.body {
            ItemBody::Other => r matches Err(e) && e@ == PipelineErrorView::NotAStructure
                && final(registry)@ == old(registry)@,
            ItemBody::Struct(fields) => if has_fixed_layout(item.attrs@) {
                r is Ok && final(registry)@ == old(registry)@.insert(
                    item.name@,
                    definition_text(item.name@, fields@),
                )
            } else {
                r matches Err(e) && e@ == PipelineErrorView::Layout && final(registry)@ == old(
                    registry,
                )@
            },
        },
        old(registry)@.dom().subset_of(final(registry)@.dom()),
        old(registry)@.dom().finite(),
        final(registry)@.dom().finite(),
{
    let fields = match &item.body {
        ItemBody::Struct(fields) => fields,
        ItemBody::Other => {
            proof {
                use_type_invariant(&*registry);
                registry.lemma_finite_domain();
            }
            return Err(PipelineError::NotAStructure);
        },
    };
    match check_repr_c(&item.attrs) {
        Ok(()) => registry.register_structure(item.name.as_str(), fields, true),
        Err(error) => {
            proof {
                use_type_invariant(&*registry);
                registry.lemma_finite_domain();
            }
            Err(error)
        },
    }
}

} // verus!
