use crate::error::{PipelineError, PipelineErrorView};
use crate::registry::StructRegistry;
use vstd::prelude::*;
use vstd::string::StringExecFns;

verus! {

/// The regular expression by which placeholders are found in shader source.
pub const PLACEHOLDER_PATTERN: &'static str = r"#\[vulkano_struct\((?P<name>[A-Za-z]+)\)\]";

/// The group of [`PLACEHOLDER_PATTERN`] that holds the name of the structure.
pub const PLACEHOLDER_GROUP: &'static str = "name";

/// The characters that open a placeholder.
pub open spec fn marker_open() -> Seq<char> {
    "#[vulkano_struct("@
}

/// The characters that close a placeholder.
pub open spec fn marker_close() -> Seq<char> {
    ")]"@
}

/// A letter of the basic Latin alphabet, of either case.
pub open spec fn is_letter(c: char) -> bool {
    ('a' <= c && c <= 'z') || ('A' <= c && c <= 'Z')
}

/// A structure name as a placeholder can carry it: one letter or more, and
/// nothing but letters.
pub open spec fn is_identifier(name: Seq<char>) -> bool {
    name.len() > 0 && forall|i: int| 0 <= i < name.len() ==> is_letter(#[trigger] name[i])
}

/// The placeholder that refers to the structure `name`.
pub open spec fn placeholder(name: Seq<char>) -> Seq<char> {
    marker_open() + name + marker_close()
}

/// The placeholder for `name` stands in `text` at position `at`.
pub open spec fn placeholder_at(text: Seq<char>, at: int, name: Seq<char>) -> bool {
    &&& is_identifier(name)
    &&& 0 <= at
    &&& at + placeholder(name).len() <= text.len()
    &&& text.subrange(at, at + placeholder(name).len()) == placeholder(name)
}

/// Some placeholder stands in `text` at position `at`.
pub open spec fn starts_placeholder(text: Seq<char>, at: int) -> bool {
    exists|name: Seq<char>| placeholder_at(text, at, name)
}

/// The structure named by the placeholder that stands in `text` at `at`.
pub open spec fn name_at(text: Seq<char>, at: int) -> Seq<char> {
    choose|name: Seq<char>| placeholder_at(text, at, name)
}

/// No placeholder stands anywhere in `text`.
pub open spec fn placeholder_free(text: Seq<char>) -> bool {
    forall|at: int| !starts_placeholder(text, at)
}

/// What substitution makes of a text: the rewritten text, or the name of the
/// first placeholder that refers to no registered structure.
pub enum Expansion {
    Text(Seq<char>),
    Unknown(Seq<char>),
}

/// `tail` with `head` written in front of its text; an unknown name stays as it is.
pub open spec fn prefixed(head: Seq<char>, tail: Expansion) -> Expansion {
    match tail {
        Expansion::Text(text) => Expansion::Text(head + text),
        Expansion::Unknown(name) => Expansion::Unknown(name),
    }
}

/// Reads `text` from left to right. Where a placeholder stands, its structure's
/// definition is written in its place and reading goes on behind the
/// placeholder; any other character is kept. The first placeholder whose
/// structure `defs` does not hold ends the reading.
pub open spec fn expand(text: Seq<char>, defs: Map<Seq<char>, Seq<char>>) -> Expansion
    decreases text.len(),
    via expand_decreases
{
    if text.len() == 0 {
        Expansion::Text(Seq::empty())
    } else if starts_placeholder(text, 0) {
        let name = name_at(text, 0);
        if defs.contains_key(name) {
            prefixed(defs[name], expand(text.skip(placeholder(name).len() as int), defs))
        } else {
            Expansion::Unknown(name)
        }
    } else {
        prefixed(seq![text[0]], expand(text.skip(1), defs))
    }
}

#[via_fn]
proof fn expand_decreases(text: Seq<char>, defs: Map<Seq<char>, Seq<char>>) {
    if text.len() != 0 && starts_placeholder(text, 0) {
        let name = name_at(text, 0);
        assert(placeholder_at(text, 0, name));
        assert(placeholder(name).len() >= name.len());
    }
}

proof fn reveal_markers()
    ensures
        marker_open() == seq![
            '#', '[', 'v', 'u', 'l', 'k', 'a', 'n', 'o', '_', 's', 't', 'r', 'u', 'c', 't', '(',
        ],
        marker_close() == seq![')', ']'],
{
    reveal_strlit("#[vulkano_struct(");
    reveal_strlit(")]");
    assert(marker_open() =~= seq![
        '#', '[', 'v', 'u', 'l', 'k', 'a', 'n', 'o', '_', 's', 't', 'r', 'u', 'c', 't', '(',
    ]);
    assert(marker_close() =~= seq![')', ']']);
}

/// The characters of a placeholder, position by position.
proof fn lemma_placeholder_chars(name: Seq<char>)
    ensures
        placeholder(name).len() == marker_open().len() + name.len() + marker_close().len(),
        forall|i: int|
            0 <= i < marker_open().len() ==> #[trigger] placeholder(name)[i] == marker_open()[i],
        forall|i: int|
            0 <= i < name.len() ==> #[trigger] placeholder(name)[marker_open().len() + i] == name[i],
        forall|i: int|
            0 <= i < marker_close().len() ==> #[trigger] placeholder(name)[marker_open().len()
                + name.len() + i] == marker_close()[i],
{
}

/// At one position a text holds the placeholder of one structure at most.
pub proof fn lemma_placeholder_name_unique(text: Seq<char>, at: int, a: Seq<char>, b: Seq<char>)
    requires
        placeholder_at(text, at, a),
        placeholder_at(text, at, b),
    ensures
        a == b,
{
    reveal_markers();
    lemma_placeholder_chars(a);
    lemma_placeholder_chars(b);
    let open = marker_open().len() as int;
    let in_a = text.subrange(at, at + placeholder(a).len());
    let in_b = text.subrange(at, at + placeholder(b).len());
    assert forall|i: int| 0 <= i < a.len() implies text[at + open + i] == #[trigger] a[i] by {
        assert(in_a[open + i] == placeholder(a)[open + i]);
    }
    assert forall|i: int| 0 <= i < b.len() implies text[at + open + i] == #[trigger] b[i] by {
        assert(in_b[open + i] == placeholder(b)[open + i]);
    }
    if a.len() < b.len() {
        assert(in_a[open + a.len()] == placeholder(a)[open + a.len() + 0]);
        assert(text[at + open + a.len()] == ')');
        assert(is_letter(b[a.len() as int]));
    } else if b.len() < a.len() {
        assert(in_b[open + b.len()] == placeholder(b)[open + b.len() + 0]);
        assert(text[at + open + b.len()] == ')');
        assert(is_letter(a[b.len() as int]));
    } else {
        assert(a =~= b);
    }
}

/// A placeholder stands in what follows the first `k` characters of a text
/// exactly where it stands in the text itself, `k` positions further on.
pub proof fn lemma_placeholder_shift(text: Seq<char>, k: int, at: int, name: Seq<char>)
    requires
        0 <= k <= text.len(),
        0 <= at,
    ensures
        placeholder_at(text.skip(k), at, name) <==> placeholder_at(text, at + k, name),
{
    let n = placeholder(name).len() as int;
    if at + k + n <= text.len() {
        assert(text.skip(k).subrange(at, at + n) =~= text.subrange(at + k, at + k + n));
    }
}

/// A text without placeholders is left as it is, whatever is registered.
pub proof fn lemma_expand_placeholder_free(text: Seq<char>, defs: Map<Seq<char>, Seq<char>>)
    requires
        placeholder_free(text),
    ensures
        expand(text, defs) == Expansion::Text(text),
    decreases text.len(),
{
    if text.len() == 0 {
        assert(text =~= Seq::<char>::empty());
    } else {
        let rest = text.skip(1);
        assert forall|at: int| !starts_placeholder(rest, at) by {
            if starts_placeholder(rest, at) {
                let name = name_at(rest, at);
                lemma_placeholder_shift(text, 1, at, name);
                assert(starts_placeholder(text, at + 1));
            }
        }
        lemma_expand_placeholder_free(rest, defs);
        assert(seq![text[0]] + rest =~= text);
    }
}

/// How a text expands whose leftmost placeholder is known: what stands before
/// the placeholder is kept, the definition takes the placeholder's place, and
/// what follows is expanded in turn. If the structure is not registered, it is
/// the unknown name.
pub proof fn lemma_expand_at_first_placeholder(
    before: Seq<char>,
    name: Seq<char>,
    after: Seq<char>,
    defs: Map<Seq<char>, Seq<char>>,
)
    requires
        is_identifier(name),
        forall|at: int|
            0 <= at < before.len() ==> !starts_placeholder(before + placeholder(name) + after, at),
    ensures
        expand(before + placeholder(name) + after, defs) == if defs.contains_key(name) {
            prefixed(before + defs[name], expand(after, defs))
        } else {
            Expansion::Unknown(name)
        },
    decreases before.len(),
{
    let text = before + placeholder(name) + after;
    let width = placeholder(name).len() as int;
    lemma_placeholder_chars(name);
    if before.len() == 0 {
        assert(text.subrange(0, width) =~= placeholder(name));
        assert(placeholder_at(text, 0, name));
        lemma_placeholder_name_unique(text, 0, name, name_at(text, 0));
        assert(text.skip(width) =~= after);
        assert(before + defs[name] =~= defs[name]);
    } else {
        let rest = text.skip(1);
        let shorter = before.skip(1);
        assert(rest =~= shorter + placeholder(name) + after);
        assert forall|at: int| 0 <= at < shorter.len() implies !starts_placeholder(
            shorter + placeholder(name) + after,
            at,
        ) by {
            if starts_placeholder(rest, at) {
                lemma_placeholder_shift(text, 1, at, name_at(rest, at));
                assert(starts_placeholder(text, at + 1));
            }
        }
        lemma_expand_at_first_placeholder(shorter, name, after, defs);
        assert(!starts_placeholder(text, 0));
        assert(text[0] == before[0]);
        if defs.contains_key(name) {
            assert(seq![text[0]] + (shorter + defs[name]) =~= before + defs[name]);
            let tail = expand(after, defs);
            match tail {
                Expansion::Text(t) => {
                    assert(seq![text[0]] + ((shorter + defs[name]) + t) =~= (before + defs[name])
                        + t);
                },
                Expansion::Unknown(_) => {},
            }
        }
    }
}

/// A placeholder begins with `#` and holds no other `#`.
proof fn lemma_placeholder_hash(name: Seq<char>)
    requires
        is_identifier(name),
    ensures
        placeholder(name)[0] == '#',
        forall|i: int| 0 < i < placeholder(name).len() ==> #[trigger] placeholder(name)[i] != '#',
{
    reveal_markers();
    lemma_placeholder_chars(name);
    let open = marker_open().len() as int;
    assert(placeholder(name)[0] == marker_open()[0]);
    assert forall|i: int| 0 < i < placeholder(name).len() implies #[trigger] placeholder(name)[i]
        != '#' by {
        if i < open {
            assert(placeholder(name)[i] == marker_open()[i]);
        } else if i < open + name.len() {
            assert(placeholder(name)[open + (i - open)] == name[i - open]);
            assert(is_letter(name[i - open]));
        } else {
            let k = i - open - name.len();
            assert(placeholder(name)[open + name.len() + k] == marker_close()[k]);
        }
    }
}

/// Writing a text that begins with `#` behind a text without placeholders
/// brings no placeholder into being that begins in the first text.
pub proof fn lemma_no_placeholder_across(before: Seq<char>, rest: Seq<char>)
    requires
        placeholder_free(before),
        rest.len() > 0 ==> rest[0] == '#',
    ensures
        forall|at: int| 0 <= at < before.len() ==> !starts_placeholder(before + rest, at),
{
    let text = before + rest;
    assert forall|at: int| 0 <= at < before.len() implies !starts_placeholder(text, at) by {
        if starts_placeholder(text, at) {
            let name = name_at(text, at);
            let width = placeholder(name).len() as int;
            let found = text.subrange(at, at + width);
            if at + width <= before.len() {
                assert(before.subrange(at, at + width) =~= found);
                assert(placeholder_at(before, at, name));
                assert(starts_placeholder(before, at));
            } else {
                lemma_placeholder_hash(name);
                let j = before.len() - at;
                assert(found[j] == text[before.len() as int]);
                assert(text[before.len() as int] == rest[0]);
                assert(placeholder(name)[j] != '#');
            }
        }
    }
}

/// A text with a single placeholder expands to the text with the structure's
/// definition in the placeholder's place, if the structure is registered, and
/// to the unknown name if it is not.
pub proof fn lemma_expand_single_placeholder(
    before: Seq<char>,
    name: Seq<char>,
    after: Seq<char>,
    defs: Map<Seq<char>, Seq<char>>,
)
    requires
        placeholder_free(before),
        placeholder_free(after),
        is_identifier(name),
    ensures
        expand(before + placeholder(name) + after, defs) == if defs.contains_key(name) {
            Expansion::Text(before + defs[name] + after)
        } else {
            Expansion::Unknown(name)
        },
{
    lemma_placeholder_hash(name);
    lemma_placeholder_chars(name);
    let rest = placeholder(name) + after;
    assert(rest[0] == placeholder(name)[0]);
    lemma_no_placeholder_across(before, rest);
    assert(before + rest =~= before + placeholder(name) + after);
    lemma_expand_at_first_placeholder(before, name, after, defs);
    lemma_expand_placeholder_free(after, defs);
}

/// Two texts that refer to the same registered structure both expand, and each
/// holds the same definition where its placeholder stood: reading the registry
/// neither changes it nor depends on who reads.
pub proof fn lemma_same_structure_same_text(
    before_a: Seq<char>,
    after_a: Seq<char>,
    before_b: Seq<char>,
    after_b: Seq<char>,
    name: Seq<char>,
    defs: Map<Seq<char>, Seq<char>>,
)
    requires
        placeholder_free(before_a),
        placeholder_free(after_a),
        placeholder_free(before_b),
        placeholder_free(after_b),
        is_identifier(name),
        defs.contains_key(name),
    ensures
        expand(before_a + placeholder(name) + after_a, defs) == Expansion::Text(
            before_a + defs[name] + after_a,
        ),
        expand(before_b + placeholder(name) + after_b, defs) == Expansion::Text(
            before_b + defs[name] + after_b,
        ),
{
    lemma_expand_single_placeholder(before_a, name, after_a, defs);
    lemma_expand_single_placeholder(before_b, name, after_b, defs);
}

/// Every placeholder of `text`, wherever it stands, names a structure that
/// `defs` holds.
pub open spec fn all_registered(text: Seq<char>, defs: Map<Seq<char>, Seq<char>>) -> bool {
    forall|at: int, name: Seq<char>| #[trigger]
        placeholder_at(text, at, name) ==> defs.contains_key(name)
}

/// A text all of whose placeholders name registered structures expands to a
/// text: substitution succeeds for every shader that refers to registered
/// structures only, however many placeholders it holds.
pub proof fn lemma_expand_all_registered(text: Seq<char>, defs: Map<Seq<char>, Seq<char>>)
    requires
        all_registered(text, defs),
    ensures
        expand(text, defs) is Text,
    decreases text.len(),
{
    if text.len() != 0 {
        let width = if starts_placeholder(text, 0) {
            let name = name_at(text, 0);
            assert(placeholder_at(text, 0, name));
            lemma_placeholder_chars(name);
            placeholder(name).len() as int
        } else {
            1
        };
        let rest = text.skip(width);
        assert forall|at: int, name: Seq<char>| #[trigger]
            placeholder_at(rest, at, name) implies defs.contains_key(name) by {
            lemma_placeholder_shift(text, width, at, name);
            assert(placeholder_at(text, at + width, name));
        }
        lemma_expand_all_registered(rest, defs);
    }
}

/// The name that ends an expansion is the name of a placeholder of the text,
/// and no structure of that name is registered.
pub proof fn lemma_expand_unknown(text: Seq<char>, defs: Map<Seq<char>, Seq<char>>)
    requires
        expand(text, defs) is Unknown,
    ensures
        !defs.contains_key(expand(text, defs)->Unknown_0),
        exists|at: int| #[trigger] placeholder_at(text, at, expand(text, defs)->Unknown_0),
    decreases text.len(),
{
    let unknown = expand(text, defs)->Unknown_0;
    if text.len() != 0 {
        if starts_placeholder(text, 0) && !defs.contains_key(name_at(text, 0)) {
            assert(placeholder_at(text, 0, name_at(text, 0)));
        } else {
            let width = if starts_placeholder(text, 0) {
                let name = name_at(text, 0);
                assert(placeholder_at(text, 0, name));
                lemma_placeholder_chars(name);
                placeholder(name).len() as int
            } else {
                1
            };
            let rest = text.skip(width);
            lemma_expand_unknown(rest, defs);
            let at = choose|at: int| #[trigger] placeholder_at(rest, at, unknown);
            lemma_placeholder_shift(text, width, at, unknown);
            assert(placeholder_at(text, at + width, unknown));
        }
    }
}

/// Two registries that hold the same definition for every structure that the
/// placeholders of a text name give the same expansion of that text: what a
/// shader gets for a placeholder depends on the entry of that name alone.
pub proof fn lemma_expand_same_entries(
    text: Seq<char>,
    defs: Map<Seq<char>, Seq<char>>,
    others: Map<Seq<char>, Seq<char>>,
)
    requires
        forall|at: int, name: Seq<char>| #[trigger]
            placeholder_at(text, at, name) ==> defs.contains_key(name) == others.contains_key(
                name,
            ) && (defs.contains_key(name) ==> defs[name] == others[name]),
    ensures
        expand(text, defs) == expand(text, others),
    decreases text.len(),
{
    if text.len() != 0 {
        let width = if starts_placeholder(text, 0) {
            let name = name_at(text, 0);
            assert(placeholder_at(text, 0, name));
            lemma_placeholder_chars(name);
            placeholder(name).len() as int
        } else {
            1
        };
        let rest = text.skip(width);
        assert forall|at: int, name: Seq<char>| #[trigger]
            placeholder_at(rest, at, name) implies defs.contains_key(name) == others.contains_key(
            name,
        ) && (defs.contains_key(name) ==> defs[name] == others[name]) by {
            lemma_placeholder_shift(text, width, at, name);
            assert(placeholder_at(text, at + width, name));
        }
        lemma_expand_same_entries(rest, defs, others);
    }
}

/// Substitution is idempotent on texts without placeholders: one pass gives the
/// text itself, and a second pass over that result gives it again.
pub proof fn lemma_expand_idempotent_without_placeholders(
    text: Seq<char>,
    defs: Map<Seq<char>, Seq<char>>,
)
    requires
        placeholder_free(text),
    ensures
        expand(text, defs) == Expansion::Text(text),
        expand(text, defs) matches Expansion::Text(once) && expand(once, defs) == expand(
            text,
            defs,
        ),
{
    lemma_expand_placeholder_free(text, defs);
}

/// What a search for the leftmost placeholder of a text found.
enum Search<'a> {
    /// The pattern was not accepted, or it lacks the group that holds the name.
    Rejected,
    /// The text holds no placeholder.
    Absent,
    /// The text before the leftmost placeholder, the name that the placeholder
    /// carries, and the text behind it.
    Found { before: &'a str, name: &'a str, after: &'a str },
}

/// Searches `text` for the leftmost placeholder and splits the text there.
///
/// The body compiles `pattern` with `regex::Regex::new` and searches `text`
/// with `Regex::captures`, which reports the leftmost match; it reads the
/// extent of the match with `Captures::get_match` and the group `group` with
/// `Captures::name`. What is trusted of the regex crate: the placeholder
/// pattern is valid and has the group, so the search is never rejected; and
/// the pattern matches exactly an opening marker, one or more letters of the
/// basic Latin alphabet and a closing marker. So `Absent` says that no
/// placeholder stands in the text, and the pieces of `Found` are what precedes
/// the leftmost placeholder, the name it carries and what follows it.
#[verifier::external_body]
fn split_at_first_match<'a>(pattern: &str, group: &str, text: &'a str) -> (r: Search<'a>)
    requires
        pattern@ == PLACEHOLDER_PATTERN@,
        group@ == PLACEHOLDER_GROUP@,
    ensures
        !(r is Rejected),
        r is Absent ==> placeholder_free(text@),
        r matches Search::Found { before, name, after } ==> {
            &&& text@ == before@ + placeholder(name@) + after@
            &&& is_identifier(name@)
            &&& forall|at: int| 0 <= at < before@.len() ==> !starts_placeholder(text@, at)
        },
{
    let Ok(re) = regex::Regex::new(pattern) else { return Search::Rejected };
    let Some(found) = re.captures(text) else { return Search::Absent };
    let Some(name) = found.name(group) else { return Search::Rejected };
    let whole = found.get_match();
    Search::Found {
        before: &text[..whole.start()],
        name: name.as_str(),
        after: &text[whole.end()..],
    }
}

/// Replaces every placeholder of `source` by the definition registered for the
/// structure it names, reading from left to right. Text outside placeholders is
/// kept as it is. If a placeholder names a structure that is not registered,
/// nothing is produced and the failure carries the first such name.
pub fn substitute(source: &str, registry: &StructRegistry) -> (r: Result<String, PipelineError>)
    ensures
        match expand(source@, registry@) {
            Expansion::Text(text) => r matches Ok(s) && s@ == text,
            Expansion::Unknown(name) => r matches Err(e) && e@ == (
            PipelineErrorView::UnknownStructure { name }),
        },
        placeholder_free(source@) ==> (r matches Ok(s) && s@ == source@),
        all_registered(source@, registry@) ==> r is Ok,
{
    let ghost defs = registry@;
    let mut out = String::new();
    let mut rest: &str = source;
    proof {
        assert(Seq::<char>::empty() + source@ =~= source@);
        match expand(source@, defs) {
            Expansion::Text(t) => {
                assert(Seq::<char>::empty() + t =~= t);
            },
            Expansion::Unknown(_) => {},
        }
        if placeholder_free(source@) {
            lemma_expand_placeholder_free(source@, defs);
        }
        if all_registered(source@, defs) {
            lemma_expand_all_registered(source@, defs);
        }
    }
    loop
        invariant
            defs == registry@,
            expand(source@, defs) == prefixed(out@, expand(rest@, defs)),
            placeholder_free(source@) ==> expand(source@, defs) == Expansion::Text(source@),
            all_registered(source@, defs) ==> expand(source@, defs) is Text,
        decreases rest@.len(),
    {
        match split_at_first_match(PLACEHOLDER_PATTERN, PLACEHOLDER_GROUP, rest) {
            Search::Rejected => {
                return unreached();
            },
            Search::Absent => {
                proof {
                    lemma_expand_placeholder_free(rest@, defs);
                }
                out.append(rest);
                return Ok(out);
            },
            Search::Found { before, name, after } => {
                proof {
                    lemma_expand_at_first_placeholder(before@, name@, after@, defs);
                    lemma_placeholder_chars(name@);
                }
                match registry.lookup_structure(name) {
                    Err(unknown) => {
                        return Err(unknown);
                    },
                    Ok(definition) => {
                        let ghost written = out@;
                        out.append(before);
                        out.append(definition.as_str());
                        proof {
                            assert(out@ =~= written + (before@ + defs[name@]));
                            match expand(after@, defs) {
                                Expansion::Text(t) => {
                                    assert(written + ((before@ + defs[name@]) + t) =~= out@ + t);
                                },
                                Expansion::Unknown(_) => {},
                            }
                        }
                        rest = after;
                    },
                }
            },
        }
    }
}

} // verus!
