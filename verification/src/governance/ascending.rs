//! Lists of addresses in ascending order.
use crate::address::{address_equal_by_value, Address};
use vstd::prelude::*;

verus! {

/// Each address is greater than those before it, so none occurs twice.
pub open spec fn ascending(tokens: Seq<Address>) -> bool {
    forall|i: int, j: int|
        #![trigger tokens[i], tokens[j]]
        0 <= i < j < tokens.len() ==> tokens[i].value() < tokens[j].value()
}

/// No address is less than one before it.
pub open spec fn nondecreasing(tokens: Seq<Address>) -> bool {
    forall|i: int, j: int|
        #![trigger tokens[i], tokens[j]]
        0 <= i < j < tokens.len() ==> tokens[i].value() <= tokens[j].value()
}

/// How many addresses at the front of the list are less than `token`.
pub open spec fn rank(tokens: Seq<Address>, token: Address) -> nat
    decreases tokens.len(),
{
    if tokens.len() == 0 || tokens[0].value() >= token.value() {
        0
    } else {
        1 + rank(tokens.skip(1), token)
    }
}

/// Whether `token` stands at its rank, which in an ascending list says whether it is there.
pub open spec fn at_rank(tokens: Seq<Address>, token: Address) -> bool {
    rank(tokens, token) < tokens.len() && tokens[rank(tokens, token) as int] == token
}

/// The list with `token` added or dropped at its rank.
pub open spec fn toggled(tokens: Seq<Address>, token: Address, selected: bool) -> Seq<Address> {
    if selected && !at_rank(tokens, token) {
        tokens.insert(rank(tokens, token) as int, token)
    } else if !selected && at_rank(tokens, token) {
        tokens.remove(rank(tokens, token) as int)
    } else {
        tokens
    }
}

/// The addresses before the rank are less than `token`, and the one at the rank is not.
pub proof fn lemma_rank(tokens: Seq<Address>, token: Address)
    ensures
        rank(tokens, token) <= tokens.len(),
        forall|i: int|
            0 <= i < rank(tokens, token) ==> (#[trigger] tokens[i]).value() < token.value(),
        rank(tokens, token) < tokens.len() ==> tokens[rank(tokens, token) as int].value()
            >= token.value(),
    decreases tokens.len(),
{
    if tokens.len() > 0 && tokens[0].value() < token.value() {
        lemma_rank(tokens.skip(1), token);
        let tail = tokens.skip(1);
        assert forall|i: int| 0 <= i < rank(tokens, token) implies (#[trigger] tokens[i]).value()
            < token.value() by {
            if i > 0 {
                assert(tail[i - 1] == tokens[i]);
            }
        }
    }
}

proof fn lemma_rank_is(tokens: Seq<Address>, token: Address, at: nat)
    requires
        at <= tokens.len(),
        forall|i: int| 0 <= i < at ==> (#[trigger] tokens[i]).value() < token.value(),
        at < tokens.len() ==> tokens[at as int].value() >= token.value(),
    ensures
        rank(tokens, token) == at,
{
    lemma_rank(tokens, token);
    let found = rank(tokens, token);
    if found < at {
        assert(tokens[found as int].value() < token.value());
    }
    if at < found {
        assert(tokens[at as int].value() < token.value());
    }
}

/// The rank of `token`.
fn find_rank(tokens: &Vec<Address>, token: Address) -> (at: usize)
    ensures
        at == rank(tokens@, token),
        at <= tokens@.len(),
{
    let mut at: usize = 0;
    while at < tokens.len() && tokens[at].less_than(token)
        invariant
            at <= tokens@.len(),
            forall|i: int| 0 <= i < at ==> (#[trigger] tokens@[i]).value() < token.value(),
        decreases tokens@.len() - at,
    {
        at += 1;
    }
    proof {
        lemma_rank_is(tokens@, token, at as nat);
    }
    at
}

/// Whether `token` stands at its rank.
pub fn holds_at_rank(tokens: &Vec<Address>, token: Address) -> (found: bool)
    ensures
        found == at_rank(tokens@, token),
{
    let at: usize = find_rank(tokens, token);
    at < tokens.len() && tokens[at] == token
}

/// Adds or drops one address.
pub fn toggle(tokens: &mut Vec<Address>, token: Address, selected: bool)
    ensures
        final(tokens)@ == toggled(old(tokens)@, token, selected),
{
    let at: usize = find_rank(tokens, token);
    let found = at < tokens.len() && tokens[at] == token;
    if selected && !found {
        tokens.insert(at, token);
    } else if !selected && found {
        tokens.remove(at);
    }
}

/// In an ascending list an address is there exactly when it stands at its rank.
pub proof fn ascending_holds_token_at_rank(tokens: Seq<Address>, token: Address)
    requires
        ascending(tokens),
    ensures
        tokens.contains(token) == at_rank(tokens, token),
{
    lemma_rank(tokens, token);
    let at = rank(tokens, token);
    if tokens.contains(token) {
        let i = choose|i: int| 0 <= i < tokens.len() && tokens[i] == token;
        if at < i {
            assert(tokens[at as int].value() < tokens[i].value());
        }
        if i < at {
            assert(tokens[i].value() < token.value());
        }
    }
}

/// Adding or dropping an address keeps the list ascending, so unique, and changes only whether
/// that address is in it.
pub proof fn toggling_keeps_ascending(tokens: Seq<Address>, token: Address, selected: bool)
    requires
        ascending(tokens),
    ensures
        ascending(toggled(tokens, token, selected)),
        toggled(tokens, token, selected).contains(token) == selected,
        forall|other: Address|
            other != token ==> (#[trigger] toggled(tokens, token, selected).contains(other)
                == tokens.contains(other)),
{
    lemma_rank(tokens, token);
    ascending_holds_token_at_rank(tokens, token);
    let at = rank(tokens, token) as int;
    let next = toggled(tokens, token, selected);
    if selected && !at_rank(tokens, token) {
        assert forall|i: int, j: int|
            #![trigger next[i], next[j]]
            0 <= i < j < next.len() implies next[i].value() < next[j].value() by {
            if i < at && j == at {
                assert(tokens[i].value() < token.value());
            } else if i == at {
                assert(next[j] == tokens[j - 1]);
                if at < tokens.len() {
                    if tokens[at].value() == token.value() {
                        address_equal_by_value(tokens[at], token);
                    }
                    if j - 1 > at {
                        assert(tokens[at].value() < tokens[j - 1].value());
                    }
                }
            } else {
                let a: int = if i < at { i } else { i - 1 };
                let b: int = if j < at { j } else { j - 1 };
                assert(tokens[a].value() < tokens[b].value());
            }
        }
        assert(next[at] == token);
        assert forall|other: Address| other != token implies (#[trigger] next.contains(other)
            == tokens.contains(other)) by {
            if next.contains(other) {
                let i = choose|i: int| 0 <= i < next.len() && next[i] == other;
                let a: int = if i < at { i } else { i - 1 };
                assert(tokens[a] == other);
            }
            if tokens.contains(other) {
                let i = choose|i: int| 0 <= i < tokens.len() && tokens[i] == other;
                let a: int = if i < at { i } else { i + 1 };
                assert(next[a] == other);
            }
        }
    } else if !selected && at_rank(tokens, token) {
        assert forall|i: int, j: int|
            #![trigger next[i], next[j]]
            0 <= i < j < next.len() implies next[i].value() < next[j].value() by {
            let a: int = if i < at { i } else { i + 1 };
            let b: int = if j < at { j } else { j + 1 };
            assert(tokens[a].value() < tokens[b].value());
        }
        assert forall|other: Address|
            #[trigger] next.contains(other) == (tokens.contains(other) && other != token) by {
            if next.contains(other) {
                let i = choose|i: int| 0 <= i < next.len() && next[i] == other;
                let a: int = if i < at { i } else { i + 1 };
                assert(tokens[a] == other);
                if other == token {
                    if a < at {
                        assert(tokens[a].value() < tokens[at].value());
                    } else {
                        assert(tokens[at].value() < tokens[a].value());
                    }
                }
            }
            if tokens.contains(other) && other != token {
                let i = choose|i: int| 0 <= i < tokens.len() && tokens[i] == other;
                let a: int = if i < at { i } else { i - 1 };
                assert(next[a] == other);
            }
        }
    }
}

/// Dropping an address that was just added gives the list back.
pub proof fn dropping_undoes_adding(tokens: Seq<Address>, token: Address)
    requires
        ascending(tokens),
        !tokens.contains(token),
    ensures
        toggled(toggled(tokens, token, true), token, false) == tokens,
{
    lemma_rank(tokens, token);
    ascending_holds_token_at_rank(tokens, token);
    let at = rank(tokens, token);
    let added = toggled(tokens, token, true);
    assert forall|i: int| 0 <= i < at implies (#[trigger] added[i]).value() < token.value() by {
        assert(added[i] == tokens[i]);
    }
    lemma_rank_is(added, token, at);
    assert(added.remove(at as int) =~= tokens);
}

/// The addresses of a list in ascending order, each once.
pub fn sorted_unique(tokens: &Vec<Address>) -> (sorted: Vec<Address>)
    ensures
        ascending(sorted@),
        forall|token: Address| sorted@.contains(token) == #[trigger] tokens@.contains(token),
{
    let mut sorted: Vec<Address> = Vec::new();
    let mut i: usize = 0;
    while i < tokens.len()
        invariant
            i <= tokens@.len(),
            ascending(sorted@),
            forall|token: Address|
                sorted@.contains(token) == #[trigger] tokens@.take(i as int).contains(token),
        decreases tokens@.len() - i,
    {
        let ghost before = sorted@;
        let next = tokens[i];
        toggle(&mut sorted, next, true);
        proof {
            toggling_keeps_ascending(before, next, true);
            let head = tokens@.take(i as int);
            let longer = tokens@.take(i + 1);
            assert(longer =~= head.push(next));
            assert forall|token: Address| sorted@.contains(token) == #[trigger] longer.contains(
                token,
            ) by {
                assert(longer[i as int] == next);
                if head.contains(token) {
                    let j = choose|j: int| 0 <= j < head.len() && head[j] == token;
                    assert(longer[j] == token);
                }
                if longer.contains(token) && token != next {
                    let j = choose|j: int| 0 <= j < longer.len() && longer[j] == token;
                    assert(head[j] == token);
                }
                assert(head.contains(token) == before.contains(token));
            }
        }
        i += 1;
    }
    assert(tokens@.take(i as int) =~= tokens@);
    sorted
}

proof fn lemma_insert_multiset(tokens: Seq<Address>, at: int, token: Address)
    requires
        0 <= at <= tokens.len(),
    ensures
        tokens.insert(at, token).to_multiset() == tokens.to_multiset().insert(token),
{
    vstd::seq_lib::to_multiset_insert(tokens, at, token);
}

/// The addresses of a list in order, as often as they occur in it.
pub fn sorted(tokens: &Vec<Address>) -> (sorted: Vec<Address>)
    ensures
        nondecreasing(sorted@),
        sorted@.to_multiset() == tokens@.to_multiset(),
{
    let mut sorted: Vec<Address> = Vec::new();
    let mut i: usize = 0;
    assert(sorted@ =~= tokens@.take(0));
    while i < tokens.len()
        invariant
            i <= tokens@.len(),
            nondecreasing(sorted@),
            sorted@.to_multiset() == tokens@.take(i as int).to_multiset(),
        decreases tokens@.len() - i,
    {
        let ghost before = sorted@;
        let next = tokens[i];
        let at: usize = find_rank(&sorted, next);
        proof {
            lemma_rank(before, next);
            lemma_insert_multiset(before, at as int, next);
            let head = tokens@.take(i as int);
            lemma_insert_multiset(head, i as int, next);
            assert(tokens@.take(i + 1) =~= head.insert(i as int, next));
        }
        sorted.insert(at, next);
        proof {
            assert forall|j: int, k: int|
                #![trigger sorted@[j], sorted@[k]]
                0 <= j < k < sorted@.len() implies sorted@[j].value() <= sorted@[k].value() by {
                let a: int = if j < at { j } else { j - 1 };
                let b: int = if k < at { k } else { k - 1 };
                if k == at {
                    assert(before[j].value() < next.value());
                } else if j == at {
                    assert(before[at as int].value() >= next.value());
                    if b > at {
                        assert(before[at as int].value() <= before[b].value());
                    }
                } else {
                    assert(before[a].value() <= before[b].value());
                }
            }
        }
        i += 1;
    }
    assert(tokens@.take(i as int) =~= tokens@);
    sorted
}

/// Whether the list is ascending.
pub fn is_ascending(tokens: &Vec<Address>) -> (result: bool)
    ensures
        result == ascending(tokens@),
{
    if tokens.len() == 0 {
        return true;
    }
    let mut i: usize = 1;
    while i < tokens.len()
        invariant
            1 <= i <= tokens@.len(),
            ascending(tokens@.take(i as int)),
        decreases tokens@.len() - i,
    {
        if !tokens[i - 1].less_than(tokens[i]) {
            assert(tokens@[i - 1].value() >= tokens@[i as int].value());
            return false;
        }
        proof {
            let head = tokens@.take(i as int);
            let longer = tokens@.take(i + 1);
            assert forall|j: int, k: int|
                #![trigger longer[j], longer[k]]
                0 <= j < k < longer.len() implies longer[j].value() < longer[k].value() by {
                assert(longer[j] == head[j]);
                if k < i {
                    assert(head[j].value() < head[k].value());
                } else if j < i - 1 {
                    assert(head[j].value() < head[i - 1].value());
                }
            }
        }
        i += 1;
    }
    assert(tokens@.take(i as int) =~= tokens@);
    true
}

/// Two ascending lists with the same addresses are the same list.
pub proof fn ascending_lists_are_equal(a: Seq<Address>, b: Seq<Address>)
    requires
        ascending(a),
        ascending(b),
        forall|token: Address| #[trigger] a.contains(token) == b.contains(token),
    ensures
        a == b,
    decreases a.len(),
{
    if a.len() == 0 {
        if b.len() > 0 {
            assert(b.contains(b[0]));
            assert(a.contains(b[0]));
        }
        assert(a =~= b);
    } else {
        assert(a.contains(a.last()));
        assert(b.contains(a.last()));
        let i = choose|i: int| 0 <= i < b.len() && b[i] == a.last();
        assert(b.contains(b.last()));
        assert(a.contains(b.last()));
        let j = choose|j: int| 0 <= j < a.len() && a[j] == b.last();
        if i < b.len() - 1 {
            assert(b[i].value() < b[b.len() - 1].value());
            if j < a.len() - 1 {
                assert(a[j].value() < a[a.len() - 1].value());
            }
        }
        assert(b.last() == a.last());
        let short_a = a.drop_last();
        let short_b = b.drop_last();
        assert forall|token: Address| #[trigger]
            short_a.contains(token) == short_b.contains(token) by {
            if short_a.contains(token) {
                let k = choose|k: int| 0 <= k < short_a.len() && short_a[k] == token;
                assert(a[k].value() < a[a.len() - 1].value());
                assert(a.contains(token));
                let m = choose|m: int| 0 <= m < b.len() && b[m] == token;
                assert(short_b[m] == token);
            }
            if short_b.contains(token) {
                let k = choose|k: int| 0 <= k < short_b.len() && short_b[k] == token;
                assert(b[k].value() < b[b.len() - 1].value());
                assert(b[k] == token);
                assert(b.contains(token));
                assert(a.contains(token));
                let m = choose|m: int| 0 <= m < a.len() && a[m] == token;
                assert(short_a[m] == token);
            }
        }
        ascending_lists_are_equal(short_a, short_b);
        assert(a =~= short_a.push(a.last()));
        assert(b =~= short_b.push(b.last()));
    }
}

/// A list in order is fixed by what it holds: two such lists with the same addresses, each as
/// often, are the same.
pub proof fn ordered_lists_are_equal(a: Seq<Address>, b: Seq<Address>)
    requires
        nondecreasing(a),
        nondecreasing(b),
        a.to_multiset() == b.to_multiset(),
    ensures
        a == b,
{
    let leq = |x: Address, y: Address| x.value() <= y.value();
    assert forall|x: Address, y: Address| #[trigger] leq(x, y) && #[trigger] leq(y, x) implies x
        == y by {
        crate::address::address_equal_by_value(x, y);
    }
    vstd::seq_lib::lemma_sorted_unique(a, b, leq);
}

/// An ascending list grows at every place, so that no token stands in it twice.
pub proof fn ascending_lists_grow(tokens: Seq<Address>, a: int, b: int)
    requires
        0 <= a < b < tokens.len(),
    ensures
        ascending(tokens) ==> tokens[a].value() < tokens[b].value() && tokens[a] != tokens[b],
        tokens[a].value() >= tokens[b].value() ==> !ascending(tokens),
        nondecreasing(tokens) ==> tokens[a].value() <= tokens[b].value(),
        tokens[a].value() > tokens[b].value() ==> !nondecreasing(tokens),
        ascending(tokens) ==> nondecreasing(tokens),
{
}

/// Choosing twice chooses once, and what is chosen already stays in its place.
pub proof fn choosing_twice_chooses_once(tokens: Seq<Address>, token: Address)
    requires
        ascending(tokens),
    ensures
        tokens.contains(token) ==> toggled(tokens, token, true) == tokens,
        !tokens.contains(token) ==> toggled(tokens, token, false) == tokens,
        !tokens.contains(token) ==> toggled(tokens, token, true).len() == tokens.len() + 1,
        tokens.contains(token) ==> toggled(tokens, token, false).len() == tokens.len() - 1,
{
    ascending_holds_token_at_rank(tokens, token);
    lemma_rank(tokens, token);
}

} // verus!
