//! What reading JSON documents guarantees: which member is found, and which documents say the
//! same.

use vstd::prelude::*;

use crate::json::{member, member_of, names_differ, same, tree, Json, Tree};

verus! {

/// Whether the member at `i` is the first called `name`.
pub open spec fn is_named(members: Seq<(Seq<char>, Tree)>, name: Seq<char>, i: int) -> bool {
    &&& 0 <= i < members.len()
    &&& members[i].0 == name
    &&& forall|j: int| 0 <= j < i ==> (#[trigger] members[j]).0 != name
}

/// Whether a document is an object whose member called `name` is `value`.
pub open spec fn holds(t: Tree, name: Seq<char>, value: Tree) -> bool {
    &&& t matches Tree::Object(members)
    &&& exists|i: int| #[trigger] is_named(members, name, i) && members[i].1 == value
}

/// Whether a document is no object, or one without a member called `name`.
pub open spec fn lacks(t: Tree, name: Seq<char>) -> bool {
    t matches Tree::Object(members) ==> forall|i: int|
        0 <= i < members.len() ==> (#[trigger] members[i]).0 != name
}

proof fn lemma_member_from(members: Seq<(Seq<char>, Tree)>, name: Seq<char>, from: int)
    requires
        0 <= from <= members.len(),
        forall|j: int| 0 <= j < from ==> (#[trigger] members[j]).0 != name,
    ensures
        match member_of(members.subrange(from, members.len() as int), name) {
            Some(value) => holds(Tree::Object(members), name, value),
            None => lacks(Tree::Object(members), name),
        },
    decreases members.len() - from,
{
    let rest = members.subrange(from, members.len() as int);
    if from < members.len() {
        assert(rest[0] == members[from]);
        assert(rest.drop_first() =~= members.subrange(from + 1, members.len() as int));
        if members[from].0 == name {
            assert(is_named(members, name, from));
        } else {
            lemma_member_from(members, name, from + 1);
        }
    }
}

pub(crate) proof fn lemma_member(t: Tree, name: Seq<char>)
    ensures
        match member(t, name) {
            Some(value) => holds(t, name, value),
            None => lacks(t, name),
        },
        forall|value: Tree| holds(t, name, value) ==> member(t, name) == Some(value),
{
    if let Tree::Object(members) = t {
        assert(members.subrange(0, members.len() as int) =~= members);
        lemma_member_from(members, name, 0);
        assert forall|value: Tree| holds(t, name, value) implies member(t, name) == Some(value) by {
            let i = choose|i: int| #[trigger] is_named(members, name, i) && members[i].1 == value;
            assert(members[i].0 == name);
            if let Some(found) = member(t, name) {
                let k = choose|k: int|
                    #[trigger] is_named(members, name, k) && members[k].1 == found;
                if i < k {
                    assert(members[i].0 != name);
                }
                if k < i {
                    assert(members[k].0 != name);
                }
            }
        }
    }
}

/// A document is read as it stands: the items of a list and the members of an object each in
/// its place.
pub proof fn a_document_is_seen_as_it_is(json: Json, i: int)
    ensures
        match json {
            Json::Null => tree(json) == Tree::Null,
            Json::Bool(b) => tree(json) == Tree::Bool(b),
            Json::Number(n) => tree(json) == Tree::Number(n@),
            Json::Text(t) => tree(json) == Tree::Text(t@),
            Json::List(items) => {
                &&& tree(json) matches Tree::List(seen)
                &&& seen.len() == items@.len()
                &&& 0 <= i < items@.len() ==> seen[i] == tree(items@[i])
            },
            Json::Object(members) => {
                &&& tree(json) matches Tree::Object(seen)
                &&& seen.len() == members@.len()
                &&& 0 <= i < members@.len() ==> seen[i] == (
                    members@[i].name@,
                    tree(members@[i].value),
                )
            },
        },
{
}

/// A member is found by its name, character for character, whatever other members there are,
/// and of several the first; it is missing exactly where none has the name.
pub proof fn a_member_is_found_by_its_name(json: &Json, name: &str, value: Option<&Json>)
    requires
        call_ensures(Json::get, (json, name), value),
    ensures
        match value {
            Some(value) => holds(tree(*json), name@, tree(*value)),
            None => lacks(tree(*json), name@),
        },
{
    lemma_member(tree(*json), name@);
}

/// Only a text is read as one, and only `true` as true.
pub proof fn only_a_text_is_a_text(json: &Json, text: Option<&String>, truth: bool)
    requires
        call_ensures(Json::as_str, (json,), text),
        call_ensures(Json::is_true, (json,), truth),
    ensures
        text is Some <==> *json is Text,
        text matches Some(text) ==> *json is Text && text@ == json->Text_0@,
        truth <==> *json is Bool && json->Bool_0,
{
}

/// Whether two documents are of different kinds.
pub open spec fn differ_in_kind(a: Tree, b: Tree) -> bool {
    ||| (a is Null) != (b is Null)
    ||| (a is Bool) != (b is Bool)
    ||| (a is Number) != (b is Number)
    ||| (a is Text) != (b is Text)
    ||| (a is List) != (b is List)
    ||| (a is Object) != (b is Object)
}

/// Whether a number text writes one of the two zeros of a fraction.
pub open spec fn is_either_zero(text: Seq<char>) -> bool {
    text == seq!['0', '.', '0'] || text == seq!['-', '0', '.', '0']
}

/// Plain documents say the same exactly where they are the same, the two zeros of a fraction
/// apart, and documents of different kinds never do.
pub proof fn plain_documents_say_the_same_where_equal(a: Tree, b: Tree)
    requires
        !(a is List),
        !(a is Object),
    ensures
        same(a, b) <==> a == b || (a is Number && b is Number && is_either_zero(a->Number_0)
            && is_either_zero(b->Number_0)),
        differ_in_kind(a, b) ==> !same(a, b),
{
    reveal_strlit("0.0");
    reveal_strlit("-0.0");
    if let Tree::Number(x) = a {
        assert(x =~= seq!['0', '.', '0'] <==> x =~= "0.0"@);
        assert(x =~= seq!['-', '0', '.', '0'] <==> x =~= "-0.0"@);
    }
    if let Tree::Number(x) = b {
        assert(x =~= seq!['0', '.', '0'] <==> x =~= "0.0"@);
        assert(x =~= seq!['-', '0', '.', '0'] <==> x =~= "-0.0"@);
    }
}

/// Lists say the same exactly where they are as long and say the same item by item.
pub proof fn lists_say_the_same_item_by_item(xs: Seq<Tree>, ys: Seq<Tree>)
    ensures
        same(Tree::List(xs), Tree::List(ys)) <==> xs.len() == ys.len() && forall|i: int|
            0 <= i < xs.len() ==> same(#[trigger] xs[i], ys[i]),
{
}

/// The names of members.
pub open spec fn names(members: Seq<(Seq<char>, Tree)>) -> Seq<Seq<char>> {
    Seq::new(members.len(), |i: int| members[i].0)
}

/// Objects that name no member twice say the same exactly where, whatever the order of their
/// members, each name stands in both or in neither, and stands for the same in both: no
/// member can be left out, added, or changed.
pub proof fn objects_say_the_same_name_by_name(
    xs: Seq<(Seq<char>, Tree)>,
    ys: Seq<(Seq<char>, Tree)>,
)
    requires
        names_differ(xs),
        names_differ(ys),
        same(Tree::Object(xs), Tree::Object(ys)),
    ensures
        forall|name: Seq<char>|
            #![trigger lacks(Tree::Object(xs), name)]
            lacks(Tree::Object(xs), name) <==> lacks(Tree::Object(ys), name),
        forall|name: Seq<char>, x: Tree, y: Tree|
            #![trigger holds(Tree::Object(xs), name, x), holds(Tree::Object(ys), name, y)]
            holds(Tree::Object(xs), name, x) && holds(Tree::Object(ys), name, y) ==> same(x, y),
{
    let (a, b) = (names(xs), names(ys));
    assert forall|i: int| 0 <= i < xs.len() implies b.contains(#[trigger] a[i]) by {
        assert(xs[i].0 == a[i]);
        lemma_member(Tree::Object(ys), xs[i].0);
        let y = member_of(ys, xs[i].0)->0;
        let k = choose|k: int| #[trigger] is_named(ys, xs[i].0, k) && ys[k].1 == y;
        assert(b[k] == a[i]);
    }
    assert(a.no_duplicates()) by {
        assert forall|i: int, j: int| 0 <= i < a.len() && 0 <= j < a.len() && i != j implies a[i]
            != a[j] by {
            if i < j {
                assert(xs[i].0 != xs[j].0);
            } else {
                assert(xs[j].0 != xs[i].0);
            }
        }
    }
    assert(b.no_duplicates()) by {
        assert forall|i: int, j: int| 0 <= i < b.len() && 0 <= j < b.len() && i != j implies b[i]
            != b[j] by {
            if i < j {
                assert(ys[i].0 != ys[j].0);
            } else {
                assert(ys[j].0 != ys[i].0);
            }
        }
    }
    a.unique_seq_to_set();
    b.unique_seq_to_set();
    assert(a.to_set().subset_of(b.to_set())) by {
        assert forall|name: Seq<char>| a.to_set().contains(name) implies b.to_set().contains(
            name,
        ) by {
            let i = choose|i: int| 0 <= i < a.len() && a[i] == name;
            assert(b.contains(a[i]));
        }
    }
    vstd::set_lib::lemma_subset_equality(a.to_set(), b.to_set());
    assert forall|name: Seq<char>|
        #![trigger lacks(Tree::Object(xs), name)]
        lacks(Tree::Object(xs), name) <==> lacks(Tree::Object(ys), name) by {
        if !lacks(Tree::Object(ys), name) {
            let k = choose|k: int| 0 <= k < ys.len() && (#[trigger] ys[k]).0 == name;
            assert(b[k] == name);
            assert(b.to_set().contains(name));
            assert(a.to_set().contains(name));
            let i = choose|i: int| 0 <= i < a.len() && a[i] == name;
            assert(xs[i].0 == name);
        }
        if !lacks(Tree::Object(xs), name) {
            let i = choose|i: int| 0 <= i < xs.len() && (#[trigger] xs[i]).0 == name;
            assert(a[i] == name);
            assert(b.contains(a[i]));
            let k = choose|k: int| 0 <= k < b.len() && b[k] == name;
            assert(ys[k].0 == name);
        }
    }
    assert forall|name: Seq<char>, x: Tree, y: Tree|
        #![trigger holds(Tree::Object(xs), name, x), holds(Tree::Object(ys), name, y)]
        holds(Tree::Object(xs), name, x) && holds(Tree::Object(ys), name, y) implies same(x, y) by {
        let i = choose|i: int| #[trigger] is_named(xs, name, i) && xs[i].1 == x;
        assert(xs[i].0 == name);
        lemma_member(Tree::Object(ys), name);
    }
}

/// Objects whose members are as many, and where each name of the one stands in the other for
/// the same, say the same: the order of members does not matter.
pub proof fn the_order_of_members_does_not_matter(
    xs: Seq<(Seq<char>, Tree)>,
    ys: Seq<(Seq<char>, Tree)>,
)
    requires
        xs.len() == ys.len(),
        forall|i: int|
            0 <= i < xs.len() ==> exists|y: Tree|
                holds(Tree::Object(ys), (#[trigger] xs[i]).0, y) && same(xs[i].1, y),
    ensures
        same(Tree::Object(xs), Tree::Object(ys)),
{
    assert forall|i: int| 0 <= i < xs.len() implies (match member_of(ys, (#[trigger] xs[i]).0) {
        Some(y) => same(xs[i].1, y),
        None => false,
    }) by {
        lemma_member(Tree::Object(ys), xs[i].0);
    }
}

/// Comparing documents tells whether they say the same.
pub proof fn comparing_tells_whether_documents_say_the_same(a: &Json, b: &Json, answer: bool)
    requires
        call_ensures(Json::same, (a, b), answer),
    ensures
        answer <==> same(tree(*a), tree(*b)),
{
}

} // verus!
