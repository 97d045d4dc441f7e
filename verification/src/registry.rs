use crate::error::{PipelineError, PipelineErrorView};
use crate::mapper::{glsl_ty_from_rs_ty, shader_type_name, FieldDescriptor};
use vstd::hash_map::StringHashMap;
use vstd::prelude::*;
use vstd::string::StringExecFns;

verus! {

/// The line that declares one field inside a shader-side structure.
pub open spec fn field_line(field: FieldDescriptor) -> Seq<char> {
    "    "@ + shader_type_name(field.ty) + " "@ + field.name@ + ";\n"@
}

/// The field lines of a structure, one after the other in the order of the
/// fields, with nothing between them.
pub open spec fn joined_field_lines(fields: Seq<FieldDescriptor>) -> Seq<char>
    decreases fields.len(),
{
    if fields.len() == 0 {
        Seq::empty()
    } else {
        joined_field_lines(fields.drop_last()) + field_line(fields.last())
    }
}

/// A further field adds its line behind the lines of the fields before it.
pub proof fn lemma_joined_field_lines_push(fields: Seq<FieldDescriptor>, field: FieldDescriptor)
    ensures
        joined_field_lines(fields.push(field)) == joined_field_lines(fields) + field_line(field),
{
    assert(fields.push(field).drop_last() =~= fields);
}

/// The shader-side definition of a structure: its name, an opening brace, the
/// joined field lines and a closing brace.
pub open spec fn definition_text(name: Seq<char>, fields: Seq<FieldDescriptor>) -> Seq<char> {
    name + " {\n"@ + joined_field_lines(fields) + "}"@
}

/// Writes the shader-side definition of a structure.
pub fn struct_definition(name: &str, fields: &Vec<FieldDescriptor>) -> (text: String)
    ensures
        text@ == definition_text(name@, fields@),
{
    let mut text = String::from_str(name);
    text.append(" {\n");
    let ghost head = text@;
    let mut i: usize = 0;
    assert(fields@.take(0) =~= Seq::<FieldDescriptor>::empty());
    while i < fields.len()
        invariant
            i <= fields.len(),
            head == name@ + " {\n"@,
            text@ == head + joined_field_lines(fields@.take(i as int)),
        decreases fields.len() - i,
    {
        let field = &fields[i];
        text.append("    ");
        text.append(glsl_ty_from_rs_ty(&field.ty));
        text.append(" ");
        text.append(field.name.as_str());
        text.append(";\n");
        proof {
            let next = fields@.take(i as int + 1);
            assert(next.drop_last() =~= fields@.take(i as int));
            assert(next.last() == fields@[i as int]);
            assert(text@ =~= head + joined_field_lines(next));
        }
        i = i + 1;
    }
    assert(fields@.take(i as int) =~= fields@);
    text.append("}");
    text
}

/// The table of registered structures: for each name, the shader-side
/// definition that was generated for it.
pub struct StructRegistry {
    entries: StringHashMap<String>,
}

impl View for StructRegistry {
    type V = Map<Seq<char>, Seq<char>>;

    closed spec fn view(&self) -> Map<Seq<char>, Seq<char>> {
        self.entries@.map_values(|text: String| text@)
    }
}

impl StructRegistry {
    /// The table holds finitely many names. This holds of every registry.
    #[verifier::type_invariant]
    pub closed spec fn finitely_many(self) -> bool {
        self.entries@.dom().finite()
    }

    /// A registry with finitely many entries has a finite set of names.
    pub proof fn lemma_finite_domain(self)
        requires
            self.finitely_many(),
        ensures
            self@.dom().finite(),
    {
        assert(self@.dom() =~= self.entries@.dom());
    }

    /// A registry that holds no structure.
    pub fn new() -> (registry: StructRegistry)
        ensures
            registry@ == Map::<Seq<char>, Seq<char>>::empty(),
            registry@.dom().finite(),
    {
        let registry = StructRegistry { entries: StringHashMap::new() };
        assert(registry@ =~= Map::<Seq<char>, Seq<char>>::empty());
        registry
    }

    /// The number of registered structures.
    pub fn len(&self) -> (n: usize)
        ensures
            n == self@.len(),
            self@.dom().finite(),
    {
        proof {
            use_type_invariant(self);
            self.lemma_finite_domain();
            assert(self@.dom() =~= self.entries@.dom());
        }
        self.entries.len()
    }

    /// Stores `text` under `name`. An earlier entry of that name is replaced; no
    /// other entry changes.
    pub fn insert(&mut self, name: String, text: String)
        ensures
            final(self)@ == old(self)@.insert(name@, text@),
            old(self)@.dom().finite(),
            final(self)@.dom().finite(),
    {
        proof {
            use_type_invariant(&*self);
            self.lemma_finite_domain();
        }
        let mut entries: StringHashMap<String> = StringHashMap::new();
        core::mem::swap(&mut self.entries, &mut entries);
        entries.insert(name, text);
        core::mem::swap(&mut self.entries, &mut entries);
        assert(self@ =~= old(self)@.insert(name@, text@));
    }

    /// Whether a structure of that name is registered.
    pub fn contains(&self, name: &str) -> (found: bool)
        ensures
            found == self@.contains_key(name@),
    {
        self.entries.contains_key(name)
    }

    /// The definition registered under `name`, or the failure that names it.
    pub fn lookup_structure(&self, name: &str) -> (r: Result<&String, PipelineError>)
        ensures
            match r {
                Ok(text) => self@.contains_key(name@) && text@ == self@[name@],
                Err(e) => !self@.contains_key(name@) && e@ == (PipelineErrorView::UnknownStructure {
                    name: name@,
                }),
            },
    {
        match self.entries.get(name) {
            Some(text) => Ok(text),
            None => Err(PipelineError::UnknownStructure { name: String::from_str(name) }),
        }
    }

    /// Registers a structure. A structure without a fixed layout is refused and
    /// the registry stays as it was; otherwise its definition is generated and
    /// stored under its name, replacing an earlier entry of that name.
    pub fn register_structure(
        &mut self,
        name: &str,
        fields: &Vec<FieldDescriptor>,
        fixed_layout: bool,
    ) -> (r: Result<(), PipelineError>)
        ensures
            fixed_layout ==> r is Ok && final(self)@ == old(self)@.insert(
                name@,
                definition_text(name@, fields@),
            ),
            !fixed_layout ==> r == Err::<(), PipelineError>(PipelineError::Layout) && final(self)@
                == old(self)@,
            old(self)@.dom().subset_of(final(self)@.dom()),
            old(self)@.dom().finite(),
            final(self)@.dom().finite(),
    {
        if !fixed_layout {
            proof {
                use_type_invariant(&*self);
                self.lemma_finite_domain();
            }
            return Err(PipelineError::Layout);
        }
        let text = struct_definition(name, fields);
        self.insert(String::from_str(name), text);
        Ok(())
    }
}

} // verus!
