//! Small helpers for building and reading strings.

use vstd::prelude::*;
use vstd::std_specs::iter::IteratorSpec;

verus! {

/// What a list of strings holds.
pub open spec fn texts_view(texts: Seq<String>) -> Seq<Seq<char>> {
    texts.map_values(|s: String| s@)
}

/// The strings of `names` in order, with `separator` between each two.
pub open spec fn joined(names: Seq<Seq<char>>, separator: char) -> Seq<char>
    decreases names.len(),
{
    if names.len() == 0 {
        Seq::<char>::empty()
    } else if names.len() == 1 {
        names[0]
    } else {
        joined(names.drop_last(), separator).push(separator) + names.last()
    }
}

/// Whether `name` can stand between separators: it is not empty, and holds
/// no separator itself.
pub open spec fn is_name(name: Seq<char>, separator: char) -> bool {
    name.len() > 0 && !name.contains(separator)
}

/// Whether each of `names` is a name.
pub open spec fn are_names(names: Seq<Seq<char>>, separator: char) -> bool {
    forall|i: int| 0 <= i < names.len() ==> is_name(#[trigger] names[i], separator)
}

/// The index of the last `separator` in `text`, or `-1` if there is none.
pub open spec fn last_separator(text: Seq<char>, separator: char) -> int
    decreases text.len(),
{
    if text.len() == 0 {
        -1
    } else if text.last() == separator {
        text.len() - 1
    } else {
        last_separator(text.drop_last(), separator)
    }
}

/// The strings between the separators of `text`; none for the empty text.
pub open spec fn split(text: Seq<char>, separator: char) -> Seq<Seq<char>>
    decreases text.len(),
{
    let at = last_separator(text, separator);
    if text.len() == 0 {
        Seq::<Seq<char>>::empty()
    } else if 0 <= at < text.len() {
        split(text.take(at), separator).push(text.skip(at + 1))
    } else {
        seq![text]
    }
}

/// The last separator of a text that ends in a name is the one before that
/// name.
proof fn lemma_last_separator_before_name(head: Seq<char>, name: Seq<char>, separator: char)
    requires
        !name.contains(separator),
    ensures
        last_separator(head.push(separator) + name, separator) == head.len(),
    decreases name.len(),
{
    let text = head.push(separator) + name;
    if name.len() == 0 {
        assert(text =~= head.push(separator));
    } else {
        assert(name[name.len() - 1] != separator);
        assert(text.last() == name.last());
        assert(text.drop_last() =~= head.push(separator) + name.drop_last());
        assert forall|i: int| 0 <= i < name.drop_last().len() implies name.drop_last()[i]
            != separator by {
            assert(name[i] == name.drop_last()[i]);
        }
        lemma_last_separator_before_name(head, name.drop_last(), separator);
    }
}

/// A text without a separator has no last separator.
proof fn lemma_no_separator(text: Seq<char>, separator: char)
    requires
        !text.contains(separator),
    ensures
        last_separator(text, separator) == -1,
    decreases text.len(),
{
    if text.len() > 0 {
        assert(text[text.len() - 1] != separator);
        assert forall|i: int| 0 <= i < text.drop_last().len() implies text.drop_last()[i]
            != separator by {
            assert(text[i] == text.drop_last()[i]);
        }
        lemma_no_separator(text.drop_last(), separator);
    }
}

/// A text that ends in a separator and a name is split into what the text
/// before that separator is split into, and the name.
proof fn lemma_split_before_name(head: Seq<char>, name: Seq<char>, separator: char)
    requires
        !name.contains(separator),
    ensures
        split(head.push(separator) + name, separator) == split(head, separator).push(name),
{
    let text = head.push(separator) + name;
    lemma_last_separator_before_name(head, name, separator);
    assert(text.take(head.len() as int) =~= head);
    assert(text.skip(head.len() as int + 1) =~= name);
}

/// Names that were joined are split into the same names again.
pub proof fn lemma_split_joined(names: Seq<Seq<char>>, separator: char)
    requires
        are_names(names, separator),
    ensures
        split(joined(names, separator), separator) == names,
    decreases names.len(),
{
    if names.len() == 0 {
        assert(split(joined(names, separator), separator) =~= names);
    } else if names.len() == 1 {
        assert(is_name(names[0], separator));
        lemma_no_separator(names[0], separator);
        assert(seq![names[0]] =~= names);
    } else {
        let rest = names.drop_last();
        assert(is_name(names[names.len() - 1], separator));
        assert forall|i: int| 0 <= i < rest.len() implies is_name(
            #[trigger] rest[i],
            separator,
        ) by {
            assert(rest[i] == names[i]);
        }
        lemma_split_joined(rest, separator);
        lemma_split_before_name(joined(rest, separator), names.last(), separator);
        assert(rest.push(names.last()) =~= names);
    }
}

/// Appends one character to a string.
///
/// Trusted: this is `String::push`, which the standard library documents as
/// appending the given `char` to the end of the string.
#[verifier::external_body]
pub(crate) fn push_char(s: &mut String, c: char)
    ensures
        final(s)@ == old(s)@.push(c),
{
    s.push(c);
}

/// The characters of a string, in order.
pub fn chars_of(s: &str) -> (v: Vec<char>)
    ensures
        v@ == s@,
{
    let mut v: Vec<char> = Vec::new();
    for c in it: s.chars()
        invariant
            it.seq() == s@,
            v@ == s@.take(it.index() as int),
    {
        v.push(c);
    }
    v
}

/// A copy of a list of strings.
pub fn copy_texts(texts: &Vec<String>) -> (copy: Vec<String>)
    ensures
        texts_view(copy@) == texts_view(texts@),
{
    let mut copy: Vec<String> = Vec::new();
    let mut i: usize = 0;
    while i < texts.len()
        invariant
            i <= texts.len(),
            copy.len() == i,
            forall|j: int| 0 <= j < i ==> (#[trigger] copy[j])@ == texts[j]@,
        decreases texts.len() - i,
    {
        copy.push(texts[i].clone());
        i += 1;
    }
    assert(texts_view(copy@) =~= texts_view(texts@));
    copy
}

/// The strings of `names` in order, with `separator` between each two.
pub fn join(names: &Vec<String>, separator: char) -> (text: String)
    ensures
        text@ == joined(texts_view(names@), separator),
{
    let ghost all = texts_view(names@);
    let mut text = String::new();
    let mut i: usize = 0;
    while i < names.len()
        invariant
            i <= names.len(),
            all == texts_view(names@),
            text@ == joined(all.take(i as int), separator),
        decreases names.len() - i,
    {
        assert(all.take(i + 1).drop_last() =~= all.take(i as int));
        assert(all.take(i + 1).last() == names[i as int]@);
        if i > 0 {
            push_char(&mut text, separator);
        }
        text.append(names[i].as_str());
        assert(text@ =~= joined(all.take(i + 1), separator));
        i += 1;
    }
    assert(all.take(i as int) =~= all);
    text
}

} // verus!
