//! The screens' translated labels and the messages that their controls send.
use vstd::prelude::*;
use crate::i18n::{I18n, TranslationError};

pub mod config_editor_page;
pub mod maintenance;
pub mod runner;
pub mod welcome;

verus! {

/// The first key of `keys` without a text, if any.
pub open spec fn first_missing(i18n: I18n, keys: Seq<Seq<char>>) -> Option<Seq<char>>
    decreases keys.len(),
{
    if keys.len() == 0 {
        None
    } else if !i18n.has_text(keys[0]) {
        Some(keys[0])
    } else {
        first_missing(i18n, keys.drop_first())
    }
}

/// The message of the error that looking up `key` ends in.
pub open spec fn lookup_failure(i18n: I18n, key: Seq<char>) -> Seq<char> {
    if !i18n.messages().contains_key(key) {
        "Missing key: "@ + key
    } else {
        "Message has no value"@
    }
}

/// The keys as texts.
pub open spec fn key_texts(keys: Seq<&str>) -> Seq<Seq<char>> {
    keys.map_values(|k: &str| k@)
}

proof fn lemma_first_missing_none(i18n: I18n, keys: Seq<Seq<char>>)
    ensures
        first_missing(i18n, keys) is None <==> forall|j: int| 0 <= j < keys.len() ==> i18n.has_text(#[trigger] keys[j]),
    decreases keys.len(),
{
    if keys.len() > 0 {
        lemma_first_missing_none(i18n, keys.drop_first());
        assert forall|j: int| 1 <= j < keys.len() implies keys[j] == keys.drop_first()[j - 1] by {}
        if first_missing(i18n, keys) is None {
            assert forall|j: int| 0 <= j < keys.len() implies i18n.has_text(#[trigger] keys[j]) by {
                if j > 0 {
                    assert(keys[j] == keys.drop_first()[j - 1]);
                }
            }
        }
    }
}

/// The texts of `keys`, in order, or the error of the first key without one.
pub fn lookup_all(i18n: &I18n, keys: &[&str]) -> (r: Result<Vec<String>, TranslationError>)
    ensures
        r is Ok <==> first_missing(*i18n, key_texts(keys@)) is None,
        r matches Ok(v) ==> v@.len() == keys@.len() && forall|j: int|
            0 <= j < keys@.len() ==> #[trigger] v@[j]@ == i18n.text(keys@[j]@),
        r matches Err(e) ==> first_missing(*i18n, key_texts(keys@)) matches Some(k) && e.message()
            == lookup_failure(*i18n, k),
{
    let ghost ks = key_texts(keys@);
    let mut v: Vec<String> = Vec::new();
    let mut i: usize = 0;
    assert(ks.skip(0) =~= ks);
    while i < keys.len()
        invariant
            i <= keys@.len(),
            ks == key_texts(keys@),
            v@.len() == i,
            forall|j: int| 0 <= j < i ==> i18n.has_text(#[trigger] ks[j]),
            forall|j: int| 0 <= j < i ==> #[trigger] v@[j]@ == i18n.text(keys@[j]@),
            first_missing(*i18n, ks) == first_missing(*i18n, ks.skip(i as int)),
        decreases keys@.len() - i,
    {
        assert(ks[i as int] == keys@[i as int]@);
        assert(ks.skip(i as int)[0] == ks[i as int]);
        match i18n.lookup(keys[i]) {
            Ok(t) => {
                assert(ks.skip(i as int).drop_first() =~= ks.skip(i + 1));
                v.push(t);
            },
            Err(e) => {
                assert(first_missing(*i18n, ks.skip(i as int)) == Some(ks[i as int]));
                return Err(e);
            },
        }
        i = i + 1;
    }
    proof {
        lemma_first_missing_none(*i18n, ks);
    }
    Ok(v)
}

} // verus!
