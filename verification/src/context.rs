//! The context of an iteration: the named values that its actions share.
//!
//! A context is created afresh for each iteration and handed to one action
//! after the other, so that what an action stores is there for the next one.
use vstd::prelude::*;
use crate::decimal::{decimal, decimal_text};

verus! {

/// A JSON value, as `serde_json` holds it. The engine stores such values and
/// never looks inside one.
#[verifier::external_type_specification]
#[verifier::external_body]
pub struct ExValue(serde_json::Value);

/// The JSON object of `serde_json`: a map from keys to JSON values.
#[verifier::external_type_specification]
#[verifier::external_body]
#[verifier::reject_recursive_types(K)]
#[verifier::reject_recursive_types(V)]
pub struct ExObject<K, V>(serde_json::Map<K, V>);

/// The values that the actions of one iteration share, by name.
pub type Context = serde_json::Map<String, serde_json::Value>;

/// The keys under which a context holds a value.
pub uninterp spec fn context_keys(context: Context) -> Set<Seq<char>>;

/// The entries of a context whose value is a JSON string, as a map from the
/// key to the string's text. An entry with a value of another kind, such as
/// a number, has its key in `context_keys` and no entry here.
pub uninterp spec fn context_texts(context: Context) -> Map<Seq<char>, Seq<char>>;

/// The text entries of a context that holds none.
pub open spec fn no_texts() -> Map<Seq<char>, Seq<char>> {
    Map::empty()
}

/// Calls `serde_json::Map::new`, which makes a map without entries.
#[verifier::external_body]
fn empty_context() -> (context: Context)
    ensures
        context_keys(context) == Set::<Seq<char>>::empty(),
        context_texts(context) == no_texts(),
{
    serde_json::Map::new()
}

/// Calls `serde_json::Map::insert` with a JSON string as the value. The map
/// then holds the string under the key, in place of whatever value the key
/// had before, and its other entries are as they were.
#[verifier::external_body]
fn insert_text(context: &mut Context, key: &str, text: String)
    ensures
        context_keys(*final(context)) == context_keys(*old(context)).insert(key@),
        context_texts(*final(context)) == context_texts(*old(context)).insert(key@, text@),
{
    context.insert(key.to_string(), serde_json::Value::String(text));
}

/// What a fresh context holds: the iteration's index, in decimal, under
/// `iteration` and the target's base address under `base`, both as text.
pub open spec fn seeded_texts(iteration: int, base: Seq<char>) -> Map<Seq<char>, Seq<char>> {
    no_texts().insert("iteration"@, decimal_text(iteration)).insert("base"@, base)
}

/// A fresh context holds two entries: the iteration's index under
/// `iteration`, and the base address under `base`.
pub proof fn lemma_seeded_texts(iteration: int, base: Seq<char>)
    ensures
        seeded_texts(iteration, base).dom() == set!["iteration"@, "base"@],
        seeded_texts(iteration, base).len() == 2,
        seeded_texts(iteration, base)["iteration"@] == decimal_text(iteration),
        seeded_texts(iteration, base)["base"@] == base,
{
    reveal_strlit("iteration");
    reveal_strlit("base");
    assert("iteration"@.len() != "base"@.len());
    assert(seeded_texts(iteration, base).dom() =~= set!["iteration"@, "base"@]);
    assert(set!["iteration"@, "base"@].len() == 2) by {
        let one = Set::<Seq<char>>::empty().insert("iteration"@);
        assert(set!["iteration"@, "base"@] =~= one.insert("base"@));
        assert(one.len() == 1);
        assert(!one.contains("base"@));
    }
}

/// Makes the context that an iteration starts with. It holds the two
/// entries of `seeded_texts` and nothing else.
pub fn seed_context(iteration: i64, base: &str) -> (context: Context)
    ensures
        context_texts(context) == seeded_texts(iteration as int, base@),
        context_keys(context) == context_texts(context).dom(),
{
    let mut context = empty_context();
    insert_text(&mut context, "iteration", decimal(iteration));
    insert_text(&mut context, "base", base.to_owned());
    assert(context_keys(context) =~= context_texts(context).dom());
    context
}

} // verus!
