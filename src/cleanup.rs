//! Which entities go when the menu screen closes.
use vstd::prelude::*;

verus! {

/// An entity of the scene, by its identifier, and whether it carries the
/// menu tag.
#[derive(Clone, Copy, Debug, PartialEq, Eq, Structural)]
pub struct SceneEntity {
    pub id: u64,
    pub in_menu: bool,
}

/// Identifiers of the tagged entities of `s`, in order.
pub open spec fn menu_ids(s: Seq<SceneEntity>) -> Seq<u64>
    decreases s.len(),
{
    if s.len() == 0 {
        Seq::empty()
    } else {
        let rest = menu_ids(s.drop_last());
        if s.last().in_menu {
            rest.push(s.last().id)
        } else {
            rest
        }
    }
}

/// The entities of `s` whose identifier is not in `removed`.
pub open spec fn survivors(s: Seq<SceneEntity>, removed: Seq<u64>) -> Seq<SceneEntity> {
    s.filter(|e: SceneEntity| !removed.contains(e.id))
}

/// The identifiers to despawn, each with everything below it, when the menu
/// screen is left: those of the tagged entities, in the order given.
pub fn menu_entities(entities: &Vec<SceneEntity>) -> (r: Vec<u64>)
    ensures
        r@ == menu_ids(entities@),
{
    let mut r: Vec<u64> = Vec::new();
    let mut i: usize = 0;
    while i < entities.len()
        invariant
            0 <= i <= entities.len(),
            r@ == menu_ids(entities@.subrange(0, i as int)),
        decreases entities.len() - i,
    {
        let e = entities[i];
        assert(entities@.subrange(0, i + 1).drop_last() =~= entities@.subrange(0, i as int));
        if e.in_menu {
            r.push(e.id);
        }
        i = i + 1;
    }
    assert(entities@.subrange(0, entities.len() as int) =~= entities@);
    r
}

/// Every tagged entity of `s` is among the identifiers `menu_ids` gives.
pub proof fn lemma_menu_ids_cover(s: Seq<SceneEntity>)
    ensures
        forall|i: int| 0 <= i < s.len() && #[trigger] s[i].in_menu ==> menu_ids(s).contains(s[i].id),
    decreases s.len(),
{
    if s.len() > 0 {
        let p = s.drop_last();
        lemma_menu_ids_cover(p);
        let rest = menu_ids(p);
        assert forall|i: int| 0 <= i < s.len() && #[trigger] s[i].in_menu implies menu_ids(s).contains(
            s[i].id,
        ) by {
            if i < s.len() - 1 {
                assert(p[i] == s[i]);
                let k = choose|k: int| 0 <= k < rest.len() && rest[k] == s[i].id;
                assert(menu_ids(s)[k] == s[i].id);
            } else {
                assert(menu_ids(s)[rest.len() as int] == s[i].id);
            }
        }
    }
}

/// Leaving the menu screen removes every tagged entity: once the entities that
/// `menu_entities` names are despawned, no entity with the menu tag is left.
pub proof fn lemma_cleanup_leaves_no_menu(s: Seq<SceneEntity>)
    ensures
        forall|i: int|
            0 <= i < survivors(s, menu_ids(s)).len() ==> !(#[trigger] survivors(
                s,
                menu_ids(s),
            )[i]).in_menu,
{
    lemma_menu_ids_cover(s);
    let ids = menu_ids(s);
    let f = |e: SceneEntity| !ids.contains(e.id);
    let left = s.filter(f);
    s.filter_lemma(f);
    assert forall|i: int| 0 <= i < left.len() implies !(#[trigger] left[i]).in_menu by {
        assert(f(left[i]));
        s.lemma_filter_contains_rev(f, left[i]);
        let j = choose|j: int| 0 <= j < s.len() && s[j] == left[i];
        if s[j].in_menu {
            assert(ids.contains(s[j].id));
        }
    }
}

} // verus!
