//! Laws that the use cases' contracts give in combination.

use crate::text::{mask_all, moderate, stars};
use vstd::prelude::*;

verus! {

/// Round trip: a successful register-user-name transaction leaves the
/// store's user names with the new name appended (the success clause of
/// `register_user_name`), and the existence lookups of the login and post
/// use cases answer true exactly on membership — so a freshly registered
/// name is always found.
pub proof fn lemma_register_then_user_exists(
    names_before: Seq<Seq<char>>,
    names_after: Seq<Seq<char>>,
    name: Seq<char>,
)
    requires
        names_after == names_before.push(name),
    ensures
        names_after.contains(name),
{
    assert(names_after[names_before.len() as int] == name);
}

/// A dictionary word equal to the whole content masks all of it: what is
/// left is a run of `*` of the content's length.
pub proof fn lemma_mask_whole_content(c: Seq<char>)
    requires
        c.len() >= 1,
    ensures
        mask_all(c, c) == stars(c.len()),
{
    assert(c.subrange(0, c.len() as int) =~= c);
    assert(c.skip(c.len() as int) =~= Seq::<char>::empty());
    assert(mask_all(Seq::<char>::empty(), c) == Seq::<char>::empty());
    assert(stars(c.len()) + Seq::<char>::empty() =~= stars(c.len()));
}

/// Under a one-word dictionary holding exactly the content, moderation
/// persists the full-length mask.
pub proof fn lemma_moderate_whole_content(c: Seq<char>)
    requires
        c.len() >= 1,
    ensures
        moderate(c, seq![c]) == stars(c.len()),
{
    lemma_mask_whole_content(c);
    assert(seq![c].drop_first() =~= Seq::<Seq<char>>::empty());
    assert(seq![c][0] == c);
    assert(moderate(stars(c.len()), Seq::<Seq<char>>::empty()) == stars(c.len()));
}

} // verus!
