//! The default theme set: the bundled theme resources, laid over each other
//! in their fixed order.

use crate::themes::Themes;
use vstd::prelude::*;

verus! {

/// What one bundled resource contributes: its themes as a map, or nothing
/// where the resource could not be decoded.
pub open spec fn layer_view<D>(layer: Option<Themes<D>>) -> Option<Map<Seq<char>, D>> {
    match layer {
        Some(themes) => Some(themes@),
        None => None,
    }
}

/// The contributions of a list of resources, in the list's order.
pub open spec fn layers_view<D>(layers: Seq<Option<Themes<D>>>) -> Seq<Option<Map<Seq<char>, D>>> {
    Seq::new(layers.len(), |i: int| layer_view(layers[i]))
}

/// The collection that results from laying the given contributions over an
/// empty collection, one after the other. A resource that contributes
/// nothing leaves the collection as it was.
pub open spec fn merge_all<D>(layers: Seq<Option<Map<Seq<char>, D>>>) -> Map<Seq<char>, D>
    decreases layers.len(),
{
    if layers.len() == 0 {
        Map::empty()
    } else {
        let below = merge_all(layers.drop_last());
        match layers.last() {
            Some(themes) => below.union_prefer_right(themes),
            None => below,
        }
    }
}

/// Assembles the default themes from the bundled resources, given in their
/// fixed order, each already decoded or marked as undecodable. An
/// undecodable resource is passed over; every other one is laid over what
/// came before it.
pub fn get_default_themes<D>(decoded: Vec<Option<Themes<D>>>) -> (themes: Themes<D>)
    ensures
        themes@ == merge_all(layers_view(decoded@)),
{
    let ghost resources = decoded@;
    let ghost layers = layers_view(decoded@);
    let mut themes = Themes::new();
    for resource in iter: decoded
        invariant
            iter.seq() == resources,
            layers == layers_view(resources),
            themes@ == merge_all(layers.take(iter.index() as int)),
    {
        proof {
            let next = layers.take(iter.index() + 1);
            assert(next.drop_last() == layers.take(iter.index() as int));
        }
        match resource {
            Some(layer) => {
                themes = themes.merge(layer);
            },
            None => {},
        }
    }
    proof {
        assert(layers.take(layers.len() as int) == layers);
    }
    themes
}

/// Whether the contribution at position `i` defines a theme called `name`.
pub open spec fn defines<D>(layers: Seq<Option<Map<Seq<char>, D>>>, i: int, name: Seq<char>) -> bool {
    0 <= i < layers.len() && layers[i] is Some && layers[i]->0.contains_key(name)
}

/// Laying a list of contributions over an empty collection is the same as
/// doing so for a front part and a back part of the list separately, and
/// laying the second result over the first.
pub proof fn merge_all_concat<D>(
    front: Seq<Option<Map<Seq<char>, D>>>,
    back: Seq<Option<Map<Seq<char>, D>>>,
)
    ensures
        merge_all(front + back) == merge_all(front).union_prefer_right(merge_all(back)),
    decreases back.len(),
{
    if back.len() > 0 {
        merge_all_concat(front, back.drop_last());
        assert((front + back).drop_last() == front + back.drop_last());
    }
}

/// A theme of the merged collection is defined by some contribution.
pub proof fn merged_name_is_defined<D>(layers: Seq<Option<Map<Seq<char>, D>>>, name: Seq<char>)
    requires
        merge_all(layers).contains_key(name),
    ensures
        exists|i: int| defines(layers, i, name),
    decreases layers.len(),
{
    if layers.len() > 0 {
        let last = layers.len() - 1;
        if defines(layers, last, name) {
        } else {
            merged_name_is_defined(layers.drop_last(), name);
            let i = choose|i: int| defines(layers.drop_last(), i, name);
            assert(defines(layers, i, name));
        }
    }
}

/// The last writer wins: the merged collection holds, under each name, the
/// definition given by the last contribution that defines that name.
pub proof fn last_definition_wins<D>(layers: Seq<Option<Map<Seq<char>, D>>>, i: int, name: Seq<char>)
    requires
        defines(layers, i, name),
        forall|j: int| i < j < layers.len() ==> !defines(layers, j, name),
    ensures
        merge_all(layers).contains_key(name),
        merge_all(layers)[name] == layers[i]->0[name],
    decreases layers.len(),
{
    let last = layers.len() - 1;
    if i < last {
        assert(!defines(layers, last, name));
        assert forall|j: int| i < j < layers.drop_last().len() implies !defines(
            layers.drop_last(),
            j,
            name,
        ) by {
            assert(!defines(layers, j, name));
        }
        last_definition_wins(layers.drop_last(), i, name);
    }
}

/// Merging never takes a name away: what has been merged after the first
/// `n` contributions is still there, under some definition, after all of
/// them.
pub proof fn merged_names_are_kept<D>(layers: Seq<Option<Map<Seq<char>, D>>>, n: int)
    requires
        0 <= n <= layers.len(),
    ensures
        merge_all(layers.take(n)).dom().subset_of(merge_all(layers).dom()),
{
    merge_all_concat(layers.take(n), layers.skip(n));
    assert(layers.take(n) + layers.skip(n) == layers);
}

/// A resource that cannot be decoded changes nothing: the contributions
/// before it and after it are merged as if it were not in the list.
pub proof fn undecodable_resource_is_skipped<D>(
    before: Seq<Option<Map<Seq<char>, D>>>,
    after: Seq<Option<Map<Seq<char>, D>>>,
)
    ensures
        merge_all(before + seq![None] + after) == merge_all(before + after),
{
    let skipped: Seq<Option<Map<Seq<char>, D>>> = seq![None];
    assert(merge_all(skipped) == Map::<Seq<char>, D>::empty()) by {
        assert(merge_all(skipped.drop_last()) == Map::<Seq<char>, D>::empty());
    }
    merge_all_concat(before, skipped);
    merge_all_concat(before + skipped, after);
    merge_all_concat(before, after);
}

/// Merging three collections in order is merging the first with the
/// second, and the result with the third.
pub proof fn merge_all_of_three<D>(
    first: Map<Seq<char>, D>,
    second: Map<Seq<char>, D>,
    third: Map<Seq<char>, D>,
)
    ensures
        merge_all(seq![Some(first), Some(second), Some(third)]) == first.union_prefer_right(
            second,
        ).union_prefer_right(third),
{
    let three = seq![Some(first), Some(second), Some(third)];
    let two = seq![Some(first), Some(second)];
    let one = seq![Some(first)];
    assert(three.drop_last() == two);
    assert(two.drop_last() == one);
    assert(merge_all(one) =~= first) by {
        assert(merge_all(one.drop_last()) == Map::<Seq<char>, D>::empty());
    }
    assert(merge_all(two) == first.union_prefer_right(second));
}

/// Merging is associative: it does not matter whether the third collection
/// is laid over the merge of the first two, or the merge of the last two
/// over the first.
pub proof fn merge_is_associative<D>(
    first: Map<Seq<char>, D>,
    second: Map<Seq<char>, D>,
    third: Map<Seq<char>, D>,
)
    ensures
        first.union_prefer_right(second).union_prefer_right(third) == first.union_prefer_right(
            second.union_prefer_right(third),
        ),
{
    assert(first.union_prefer_right(second).union_prefer_right(third) =~= first.union_prefer_right(
        second.union_prefer_right(third),
    ));
}

/// Where two collections define the same name, their merge holds the
/// definition of the one laid on top: merging depends on the order.
pub proof fn merge_prefers_the_later<D>(
    below: Map<Seq<char>, D>,
    above: Map<Seq<char>, D>,
    name: Seq<char>,
)
    requires
        above.contains_key(name),
    ensures
        below.union_prefer_right(above).contains_key(name),
        below.union_prefer_right(above)[name] == above[name],
{
}

/// A theme that only the collection below defines survives the merge
/// untouched.
pub proof fn merge_keeps_the_rest<D>(
    below: Map<Seq<char>, D>,
    above: Map<Seq<char>, D>,
    name: Seq<char>,
)
    requires
        below.contains_key(name),
        !above.contains_key(name),
    ensures
        below.union_prefer_right(above).contains_key(name),
        below.union_prefer_right(above)[name] == below[name],
{
}

/// Of three collections merged in order, a name that the first and the
/// third define, and the second does not, ends with the third's definition;
/// a name that only the first defines keeps the first's definition.
pub proof fn merge_of_three_overrides<D>(
    first: Map<Seq<char>, D>,
    second: Map<Seq<char>, D>,
    third: Map<Seq<char>, D>,
    name: Seq<char>,
)
    requires
        first.contains_key(name),
        !second.contains_key(name),
    ensures
        merge_all(seq![Some(first), Some(second), Some(third)]).contains_key(name),
        third.contains_key(name) ==> merge_all(seq![Some(first), Some(second), Some(third)])[name]
            == third[name],
        !third.contains_key(name) ==> merge_all(seq![Some(first), Some(second), Some(third)])[name]
            == first[name],
{
    merge_all_of_three(first, second, third);
}

} // verus!
