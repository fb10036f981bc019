//! Rendering for report mode: the texts of an iteration's reports, joined
//! into the one text that is written out.
use vstd::prelude::*;
use vstd::string::StringExecFns;

verus! {

/// The texts joined from left to right. The separator goes between what has
/// been joined so far and the next text, unless nothing has been joined so
/// far: leading empty texts leave no separator behind.
pub open spec fn joined(texts: Seq<Seq<char>>, sep: Seq<char>) -> Seq<char>
    decreases texts.len(),
{
    if texts.len() == 0 {
        Seq::empty()
    } else {
        let before = joined(texts.drop_last(), sep);
        if before.len() > 0 {
            before + sep + texts.last()
        } else {
            texts.last()
        }
    }
}

/// The texts one after the other, with nothing between them.
pub open spec fn concatenated(texts: Seq<Seq<char>>) -> Seq<char>
    decreases texts.len(),
{
    if texts.len() == 0 {
        Seq::empty()
    } else {
        concatenated(texts.drop_last()) + texts.last()
    }
}

/// The texts of some strings.
pub open spec fn texts_of(l: Seq<String>) -> Seq<Seq<char>> {
    l.map_values(|text: String| text@)
}

/// Whether `texts` holds, item by item, a text that `to_string` gave for
/// the item. What `to_string` gives is up to the item's own `Display`.
pub open spec fn rendered<S: core::fmt::Display>(items: Seq<S>, texts: Seq<String>) -> bool {
    &&& texts.len() == items.len()
    &&& forall|i: int|
        0 <= i < items.len() ==> vstd::string::to_string_from_display_ensures::<S>(
            &#[trigger] items[i],
            texts[i],
        )
}

/// Renders each item with `to_string` and joins the texts with the
/// separator between them.
pub fn join<S: core::fmt::Display>(l: Vec<S>, sep: &str) -> (text: String)
    ensures
        exists|texts: Seq<String>| #[trigger]
            rendered(l@, texts) && text@ == joined(texts_of(texts), sep@),
{
    let mut texts: Vec<String> = Vec::new();
    let mut i: usize = 0;
    while i < l.len()
        invariant
            i <= l.len(),
            rendered(l@.take(i as int), texts@),
        decreases l.len() - i,
    {
        let item_text = l[i].to_string();
        texts.push(item_text);
        i = i + 1;
    }
    assert(l@.take(l.len() as int) =~= l@);
    join_texts(texts, sep)
}

/// Renders the reports of an iteration for report mode: the text of each
/// report, one after the other, with nothing between them.
pub fn render<S: core::fmt::Display>(reports: Vec<S>) -> (text: String)
    ensures
        exists|texts: Seq<String>| #[trigger]
            rendered(reports@, texts) && text@ == concatenated(texts_of(texts)),
{
    proof {
        reveal_strlit("");
    }
    let text = join(reports, "");
    proof {
        let texts = choose|texts: Seq<String>| #[trigger]
            rendered(reports@, texts) && text@ == joined(texts_of(texts), ""@);
        assert(""@ =~= Seq::<char>::empty());
        lemma_join_without_separator(texts_of(texts));
    }
    text
}

/// Joins the texts with the separator between them.
pub fn join_texts(l: Vec<String>, sep: &str) -> (text: String)
    ensures
        text@ == joined(texts_of(l@), sep@),
{
    let mut text = String::new();
    let mut i: usize = 0;
    while i < l.len()
        invariant
            i <= l.len(),
            text@ == joined(texts_of(l@).take(i as int), sep@),
        decreases l.len() - i,
    {
        let ghost before = text@;
        if !text.as_str().is_empty() {
            text.append(sep);
        }
        text.append(l[i].as_str());
        proof {
            let texts = texts_of(l@);
            assert(texts.take(i + 1).drop_last() =~= texts.take(i as int));
            assert(texts.take(i + 1).last() == l@[i as int]@);
            if before.len() == 0 {
                assert(before + l@[i as int]@ =~= l@[i as int]@);
            }
        }
        i = i + 1;
    }
    assert(texts_of(l@).take(l.len() as int) =~= texts_of(l@));
    text
}

/// With an empty separator the joined text is the texts one after the
/// other: nothing stands between them, and nothing is lost.
pub proof fn lemma_join_without_separator(texts: Seq<Seq<char>>)
    ensures
        joined(texts, Seq::empty()) == concatenated(texts),
    decreases texts.len(),
{
    if texts.len() > 0 {
        lemma_join_without_separator(texts.drop_last());
        let before = joined(texts.drop_last(), Seq::empty());
        if before.len() > 0 {
            assert(before + Seq::<char>::empty() + texts.last() =~= before + texts.last());
        } else {
            assert(before + texts.last() =~= texts.last());
        }
    }
}

/// Rendering goes text by text: the rendering of one list of texts after
/// another is the rendering of the first followed by that of the second,
/// with nothing between them.
pub proof fn lemma_concatenated_append(first: Seq<Seq<char>>, second: Seq<Seq<char>>)
    ensures
        concatenated(first + second) == concatenated(first) + concatenated(second),
    decreases second.len(),
{
    if second.len() == 0 {
        assert(first + second =~= first);
        assert(concatenated(first) + concatenated(second) =~= concatenated(first));
    } else {
        lemma_concatenated_append(first, second.drop_last());
        assert((first + second).drop_last() =~= first + second.drop_last());
        assert((first + second).last() == second.last());
        assert(concatenated(first) + concatenated(second.drop_last()) + second.last()
            =~= concatenated(first) + (concatenated(second.drop_last()) + second.last()));
    }
}

/// The joined text of a single text is that text.
pub proof fn lemma_join_single(text: Seq<char>, sep: Seq<char>)
    ensures
        joined(seq![text], sep) == text,
{
    assert(seq![text].drop_last() =~= Seq::<Seq<char>>::empty());
    assert(joined(seq![text].drop_last(), sep).len() == 0);
}

} // verus!
