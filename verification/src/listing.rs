//! The order in which a collection is listed: by ascending key.

use vstd::prelude::*;
use vstd::seq_lib::seq_to_set_is_finite;

verus! {

/// Each key is smaller than all that follow it.
pub open spec fn is_ascending(keys: Seq<u64>) -> bool {
    forall|i: int, j: int| 0 <= i < j < keys.len() ==> keys[i] < keys[j]
}

/// `keys` holds exactly the members of `domain`, in ascending order.
pub open spec fn lists(keys: Seq<u64>, domain: Set<u64>) -> bool {
    &&& is_ascending(keys)
    &&& forall|i: int| 0 <= i < keys.len() ==> domain.contains(#[trigger] keys[i])
    &&& forall|key: u64| #[trigger]
        domain.contains(key) ==> exists|i: int| 0 <= i < keys.len() && #[trigger] keys[i] == key
}

/// The members of `domain` in ascending order.
pub open spec fn ascending_keys(domain: Set<u64>) -> Seq<u64> {
    choose|keys: Seq<u64>| lists(keys, domain)
}

/// Two ascending listings of one set agree on every position that both have.
proof fn lemma_lists_agree(a: Seq<u64>, b: Seq<u64>, domain: Set<u64>, upto: int)
    requires
        lists(a, domain),
        lists(b, domain),
        0 <= upto <= a.len(),
        upto <= b.len(),
    ensures
        forall|i: int| 0 <= i < upto ==> a[i] == b[i],
    decreases upto,
{
    if upto > 0 {
        lemma_lists_agree(a, b, domain, upto - 1);
        let last = upto - 1;
        assert(domain.contains(a[last]));
        let in_b = choose|i: int| 0 <= i < b.len() && #[trigger] b[i] == a[last];
        assert(domain.contains(b[last]));
        let in_a = choose|i: int| 0 <= i < a.len() && #[trigger] a[i] == b[last];
        if in_b < last {
            assert(a[in_b] == b[in_b]);
        }
        if in_a < last {
            assert(a[in_a] == b[in_a]);
        }
    }
}

/// A set has at most one ascending listing.
pub proof fn lemma_lists_unique(a: Seq<u64>, b: Seq<u64>, domain: Set<u64>)
    requires
        lists(a, domain),
        lists(b, domain),
    ensures
        a == b,
{
    if a.len() <= b.len() {
        lemma_lists_agree(a, b, domain, a.len() as int);
        if a.len() < b.len() {
            let extra = a.len() as int;
            assert(domain.contains(b[extra]));
            let in_a = choose|i: int| 0 <= i < a.len() && #[trigger] a[i] == b[extra];
            assert(a[in_a] == b[in_a]);
        }
    } else {
        lemma_lists_agree(a, b, domain, b.len() as int);
        let extra = b.len() as int;
        assert(domain.contains(a[extra]));
        let in_b = choose|i: int| 0 <= i < b.len() && #[trigger] b[i] == a[extra];
        assert(a[in_b] == b[in_b]);
    }
    assert(a =~= b);
}

/// A listing of a set is the listing of that set.
pub proof fn lemma_lists_is_ascending_keys(keys: Seq<u64>, domain: Set<u64>)
    requires
        lists(keys, domain),
    ensures
        ascending_keys(domain) == keys,
{
    lemma_lists_unique(ascending_keys(domain), keys, domain);
}

/// A set that has a listing is finite.
pub proof fn lemma_listed_set_is_finite(keys: Seq<u64>, domain: Set<u64>)
    requires
        lists(keys, domain),
    ensures
        domain.finite(),
{
    assert forall|key: u64| domain.contains(key) <==> keys.to_set().contains(key) by {
        if domain.contains(key) {
            let at = choose|i: int| 0 <= i < keys.len() && #[trigger] keys[i] == key;
            assert(keys.contains(key));
        }
        if keys.contains(key) {
            let at = choose|i: int| 0 <= i < keys.len() && keys[i] == key;
            assert(domain.contains(keys[at]));
        }
    }
    assert(domain =~= keys.to_set());
    seq_to_set_is_finite(keys);
}

/// Whether `greatest` is the greatest member of `domain`.
pub open spec fn is_greatest(greatest: u64, domain: Set<u64>) -> bool {
    domain.contains(greatest) && forall|key: u64| #[trigger] domain.contains(key) ==> key <= greatest
}

/// A finite set with a member has a greatest member.
proof fn lemma_finite_set_has_greatest(domain: Set<u64>)
    requires
        domain.finite(),
        domain.len() > 0,
    ensures
        exists|greatest: u64| is_greatest(greatest, domain),
    decreases domain.len(),
{
    let any = domain.choose();
    let others = domain.remove(any);
    if others.len() == 0 {
        assert(others =~= Set::<u64>::empty());
        assert forall|key: u64| #[trigger] domain.contains(key) implies key <= any by {
            if key != any {
                assert(others.contains(key));
            }
        }
        assert(is_greatest(any, domain));
    } else {
        lemma_finite_set_has_greatest(others);
        let greatest = choose|greatest: u64| is_greatest(greatest, others);
        let pick = if any > greatest {
            any
        } else {
            greatest
        };
        assert forall|key: u64| #[trigger] domain.contains(key) implies key <= pick by {
            if key != any {
                assert(others.contains(key));
            }
        }
        assert(is_greatest(pick, domain));
    }
}

/// Every finite set has its ascending listing.
pub proof fn lemma_finite_set_is_listed(domain: Set<u64>)
    requires
        domain.finite(),
    ensures
        lists(ascending_keys(domain), domain),
    decreases domain.len(),
{
    if domain.len() == 0 {
        assert(domain =~= Set::<u64>::empty());
        assert(lists(Seq::<u64>::empty(), domain));
    } else {
        lemma_finite_set_has_greatest(domain);
        let greatest = choose|greatest: u64| is_greatest(greatest, domain);
        let others = domain.remove(greatest);
        lemma_finite_set_is_listed(others);
        let keys = ascending_keys(others).push(greatest);
        assert forall|i: int, j: int| 0 <= i < j < keys.len() implies keys[i] < keys[j] by {
            assert(others.contains(keys[i]));
            if j < keys.len() - 1 {
                assert(keys[j] == ascending_keys(others)[j]);
            }
        }
        assert forall|key: u64| #[trigger] domain.contains(key) implies exists|i: int|
            0 <= i < keys.len() && #[trigger] keys[i] == key by {
            if key == greatest {
                assert(keys[keys.len() - 1] == key);
            } else {
                assert(others.contains(key));
                let at = choose|i: int|
                    0 <= i < ascending_keys(others).len() && #[trigger] ascending_keys(others)[i]
                        == key;
                assert(keys[at] == key);
            }
        }
        assert forall|i: int| 0 <= i < keys.len() implies domain.contains(#[trigger] keys[i]) by {
            if i < keys.len() - 1 {
                assert(others.contains(ascending_keys(others)[i]));
            }
        }
        assert(lists(keys, domain));
    }
}

} // verus!
