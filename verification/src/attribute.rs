use crate::error::PipelineError;
use crate::text::same_text;
use vstd::prelude::*;

verus! {

/// One entry of an attribute's parenthesised list.
#[derive(Debug, PartialEq, Eq)]
pub enum ListItem {
    /// A bare word, as `C` in `repr(C)`.
    Word(String),
    /// Anything else: a literal, a nested list, a name with a value.
    Other,
}

/// The value of an attribute of the form `name = value`.
#[derive(Debug, PartialEq, Eq)]
pub enum AttrValue {
    /// A string literal.
    Text(String),
    /// A literal of any other kind.
    Other,
}

/// An attribute of a declaration, as far as the pipeline reads it.
#[derive(Debug, PartialEq, Eq)]
pub enum Attribute {
    /// A bare name, as `test`.
    Word { name: String },
    /// A name with a list, as `repr(C)`.
    List { name: String, items: Vec<ListItem> },
    /// A name with a value, as `ty = "vertex"`.
    NameValue { name: String, value: AttrValue },
}

/// The list consists of the single word `C`.
pub open spec fn is_repr_c_list(items: Seq<ListItem>) -> bool {
    items.len() == 1 && (items[0] matches ListItem::Word(word) && word@ == "C"@)
}

/// The attribute is `repr(C)`.
pub open spec fn declares_repr_c(attr: Attribute) -> bool {
    attr matches Attribute::List { name, items } && name@ == "repr"@ && is_repr_c_list(items@)
}

/// One of the attributes is `repr(C)`: the declaration fixes the layout of its fields.
pub open spec fn has_fixed_layout(attrs: Seq<Attribute>) -> bool {
    exists|i: int| 0 <= i < attrs.len() && declares_repr_c(#[trigger] attrs[i])
}

/// The text that the attribute gives to `key`, if it is of the form
/// `key = "text"`.
pub open spec fn text_value(attr: Attribute, key: Seq<char>) -> Option<Seq<char>> {
    match attr {
        Attribute::NameValue { name, value: AttrValue::Text(text) } => if name@ == key {
            Some(text@)
        } else {
            None
        },
        _ => None,
    }
}

/// The texts that the attributes give to `key`, in the order of the attributes.
pub open spec fn text_values(attrs: Seq<Attribute>, key: Seq<char>) -> Seq<Seq<char>> {
    attrs.filter_map(|attr: Attribute| text_value(attr, key))
}

/// Whether the list of a `repr` attribute asks for the layout of C and for
/// nothing else.
pub fn list_repr_c(list: &Vec<ListItem>) -> (r: bool)
    ensures
        r == is_repr_c_list(list@),
{
    if list.len() != 1 {
        return false;
    }
    match &list[0] {
        ListItem::Word(word) => same_text(word.as_str(), "C"),
        ListItem::Other => false,
    }
}

/// Whether one attribute is `repr(C)`.
pub fn is_repr_c(attr: &Attribute) -> (r: bool)
    ensures
        r == declares_repr_c(*attr),
{
    match attr {
        Attribute::List { name, items } => same_text(name.as_str(), "repr") && list_repr_c(items),
        _ => false,
    }
}

/// Accepts a declaration whose attributes fix the layout of its fields, and
/// refuses any other.
pub fn check_repr_c(attrs: &Vec<Attribute>) -> (r: Result<(), PipelineError>)
    ensures
        has_fixed_layout(attrs@) ==> r is Ok,
        !has_fixed_layout(attrs@) ==> r == Err::<(), PipelineError>(PipelineError::Layout),
{
    let mut i: usize = 0;
    while i < attrs.len()
        invariant
            i <= attrs.len(),
            forall|j: int| 0 <= j < i ==> !declares_repr_c(#[trigger] attrs@[j]),
        decreases attrs.len() - i,
    {
        if is_repr_c(&attrs[i]) {
            return Ok(());
        }
        i = i + 1;
    }
    Err(PipelineError::Layout)
}

/// The text that one attribute gives to `key`, if it gives one.
pub fn attribute_text(attr: &Attribute, key: &str) -> (r: Option<String>)
    ensures
        match text_value(*attr, key@) {
            Some(text) => r matches Some(found) && found@ == text,
            None => r is None,
        },
{
    match attr {
        Attribute::NameValue { name, value: AttrValue::Text(text) } => {
            if same_text(name.as_str(), key) {
                Some(text.clone())
            } else {
                None
            }
        },
        _ => None,
    }
}

/// The first text that the attributes give to `key`, if any does.
pub fn first_text_value(attrs: &Vec<Attribute>, key: &str) -> (r: Option<String>)
    ensures
        match r {
            Some(found) => text_values(attrs@, key@).len() > 0 && found@ == text_values(
                attrs@,
                key@,
            )[0],
            None => text_values(attrs@, key@).len() == 0,
        },
{
    let mut i: usize = 0;
    proof {
        lemma_text_values_empty(key@);
        assert(attrs@.take(0) =~= Seq::<Attribute>::empty());
    }
    while i < attrs.len()
        invariant
            i <= attrs.len(),
            text_values(attrs@.take(i as int), key@).len() == 0,
        decreases attrs.len() - i,
    {
        proof {
            lemma_text_values_step(attrs@, key@, i as int);
        }
        match attribute_text(&attrs[i], key) {
            Some(found) => {
                proof {
                    lemma_text_values_prefix(attrs@, key@, i as int + 1);
                    assert(text_values(attrs@.take(i as int + 1), key@)[0] == found@);
                }
                return Some(found);
            },
            None => {},
        }
        i = i + 1;
    }
    assert(attrs@.take(i as int) =~= attrs@);
    None
}

/// No attributes give no texts.
pub proof fn lemma_text_values_empty(key: Seq<char>)
    ensures
        text_values(Seq::<Attribute>::empty(), key) == Seq::<Seq<char>>::empty(),
{
}

/// The texts given by the first `n + 1` attributes are those given by the first
/// `n`, followed by the text of the attribute at `n` if it gives one.
pub proof fn lemma_text_values_step(attrs: Seq<Attribute>, key: Seq<char>, n: int)
    requires
        0 <= n < attrs.len(),
    ensures
        text_values(attrs.take(n + 1), key) == text_values(attrs.take(n), key) + (match text_value(
            attrs[n],
            key,
        ) {
            Some(text) => seq![text],
            None => Seq::<Seq<char>>::empty(),
        }),
{
    attrs.lemma_filter_map_take_succ(|attr: Attribute| text_value(attr, key), n);
}

/// The texts given by the first `n` attributes are the first of the texts given
/// by all of them.
pub proof fn lemma_text_values_prefix(attrs: Seq<Attribute>, key: Seq<char>, n: int)
    requires
        0 <= n <= attrs.len(),
    ensures
        text_values(attrs.take(n), key).is_prefix_of(text_values(attrs, key)),
    decreases attrs.len() - n,
{
    if n == attrs.len() {
        assert(attrs.take(n) =~= attrs);
    } else {
        lemma_text_values_step(attrs, key, n);
        lemma_text_values_prefix(attrs, key, n + 1);
    }
}

} // verus!
