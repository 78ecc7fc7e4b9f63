//! Sets of package names, and names in sorted order.

use crate::text::{
    lemma_lex_asymmetric, lemma_lex_irreflexive, lemma_lex_total, lemma_lex_transitive, lex_lt,
    str_lt,
};
use vstd::hash_map::StringHashMap;
use vstd::prelude::*;

verus! {

/// A finite set of names.
pub struct NameSet {
    names: StringHashMap<()>,
}

impl View for NameSet {
    type V = Set<Seq<char>>;

    closed spec fn view(&self) -> Set<Seq<char>> {
        self.names@.dom()
    }
}

impl NameSet {
    /// The empty set.
    pub fn new() -> (s: Self)
        ensures
            s@ == Set::<Seq<char>>::empty(),
    {
        let s = NameSet { names: StringHashMap::new() };
        assert(s@ =~= Set::<Seq<char>>::empty());
        s
    }

    /// Adds `name` to the set.
    pub fn insert(&mut self, name: &str)
        ensures
            final(self)@ == old(self)@.insert(name@),
    {
        self.names.insert(name.to_string(), ());
        assert(self.names@.dom() =~= old(self).names@.dom().insert(name@));
    }

    /// Whether `name` is in the set.
    pub fn contains(&self, name: &str) -> (r: bool)
        ensures
            r == self@.contains(name@),
    {
        self.names.contains_key(name)
    }

    /// The set of the names that `names` lists.
    pub fn from_names(names: &[String]) -> (s: Self)
        ensures
            s@ == names.deep_view().to_set(),
    {
        let mut s = NameSet::new();
        let mut i: usize = 0;
        while i < names.len()
            invariant
                i <= names.len(),
                s@ == names.deep_view().take(i as int).to_set(),
            decreases names.len() - i,
        {
            s.insert(names[i].as_str());
            proof {
                lemma_take_next_to_set(names.deep_view(), i as int);
            }
            i += 1;
        }
        assert(names.deep_view().take(names.len() as int) =~= names.deep_view());
        s
    }
}

/// Taking one item more of a sequence adds that item to the set of what was
/// taken.
pub proof fn lemma_take_next_to_set<A>(s: Seq<A>, i: int)
    requires
        0 <= i < s.len(),
    ensures
        s.take(i + 1).to_set() == s.take(i).to_set().insert(s[i]),
{
    let a = s.take(i + 1);
    let b = s.take(i);
    assert forall|x: A| a.to_set().contains(x) <==> b.to_set().insert(s[i]).contains(x) by {
        if a.contains(x) {
            let k = choose|k: int| 0 <= k < a.len() && a[k] == x;
            if k < i {
                assert(b[k] == x);
            }
        }
        if b.contains(x) {
            let k = choose|k: int| 0 <= k < b.len() && b[k] == x;
            assert(a[k] == x);
        }
        if x == s[i] {
            assert(a[i] == x);
        }
    }
    assert(a.to_set() =~= b.to_set().insert(s[i]));
}

/// Each name precedes every later one. Such a list holds no name twice.
pub open spec fn strictly_sorted(s: Seq<Seq<char>>) -> bool {
    forall|i: int, j: int| 0 <= i < j < s.len() ==> lex_lt(#[trigger] s[i], #[trigger] s[j])
}

/// `s` lists the names of `set`, each once, in ascending order.
pub open spec fn lists_in_order(s: Seq<Seq<char>>, set: Set<Seq<char>>) -> bool {
    strictly_sorted(s) && s.to_set() == set
}

/// The names of a finite set in ascending order.
pub open spec fn sorted_names(set: Set<Seq<char>>) -> Seq<Seq<char>> {
    choose|s: Seq<Seq<char>>| lists_in_order(s, set)
}

proof fn lemma_sorted_tail(a: Seq<Seq<char>>, b: Seq<Seq<char>>)
    requires
        strictly_sorted(a),
        strictly_sorted(b),
        a.to_set() == b.to_set(),
        a.len() > 0,
        b.len() > 0,
        a[0] == b[0],
    ensures
        forall|x: Seq<char>| a.drop_first().contains(x) ==> b.drop_first().contains(x),
{
    assert forall|x: Seq<char>| a.drop_first().contains(x) implies b.drop_first().contains(x) by {
        let k = choose|k: int| 0 <= k < a.drop_first().len() && a.drop_first()[k] == x;
        assert(a[k + 1] == x);
        assert(lex_lt(a[0], a[k + 1]));
        assert(a.to_set().contains(x));
        assert(b.contains(x));
        let m = choose|m: int| 0 <= m < b.len() && b[m] == x;
        if m == 0 {
            lemma_lex_irreflexive(x);
        } else {
            assert(b.drop_first()[m - 1] == x);
        }
    }
}

/// A set of names has only one ascending list.
pub proof fn lemma_sorted_unique(a: Seq<Seq<char>>, b: Seq<Seq<char>>)
    requires
        strictly_sorted(a),
        strictly_sorted(b),
        a.to_set() == b.to_set(),
    ensures
        a == b,
    decreases a.len(),
{
    if a.len() == 0 {
        if b.len() > 0 {
            assert(b.to_set().contains(b[0]));
            assert(a.contains(b[0]));
        }
        assert(a =~= b);
    } else {
        assert(a.to_set().contains(a[0]));
        assert(b.contains(a[0]));
        let j = choose|j: int| 0 <= j < b.len() && b[j] == a[0];
        assert(b.to_set().contains(b[0]));
        assert(a.contains(b[0]));
        let i = choose|i: int| 0 <= i < a.len() && a[i] == b[0];
        if j > 0 && i > 0 {
            assert(lex_lt(b[0], b[j]));
            assert(lex_lt(a[0], a[i]));
            lemma_lex_asymmetric(a[0], b[0]);
        }
        assert(a[0] == b[0]);
        lemma_sorted_tail(a, b);
        lemma_sorted_tail(b, a);
        let x = a.drop_first();
        let y = b.drop_first();
        assert(strictly_sorted(x)) by {
            assert forall|p: int, q: int| 0 <= p < q < x.len() implies lex_lt(
                #[trigger] x[p],
                #[trigger] x[q],
            ) by {
                assert(lex_lt(a[p + 1], a[q + 1]));
            }
        }
        assert(strictly_sorted(y)) by {
            assert forall|p: int, q: int| 0 <= p < q < y.len() implies lex_lt(
                #[trigger] y[p],
                #[trigger] y[q],
            ) by {
                assert(lex_lt(b[p + 1], b[q + 1]));
            }
        }
        assert(x.to_set() =~= y.to_set());
        lemma_sorted_unique(x, y);
        assert(a =~= seq![a[0]] + x);
        assert(b =~= seq![b[0]] + y);
    }
}

/// Whatever lists a set in ascending order is its sorted list.
pub proof fn lemma_sorted_names(s: Seq<Seq<char>>, set: Set<Seq<char>>)
    requires
        lists_in_order(s, set),
    ensures
        sorted_names(set) == s,
{
    lemma_sorted_unique(sorted_names(set), s);
}

/// An ascending list can take any name in: some ascending list holds the
/// names of `l` and `x`.
pub proof fn lemma_insert_name(l: Seq<Seq<char>>, x: Seq<char>) -> (r: Seq<Seq<char>>)
    requires
        strictly_sorted(l),
    ensures
        lists_in_order(r, l.to_set().insert(x)),
    decreases l.len(),
{
    if l.len() == 0 {
        let r = seq![x];
        assert(r.to_set() =~= l.to_set().insert(x)) by {
            assert(r[0] == x);
            assert forall|y: Seq<char>| r.to_set().contains(y) <==> l.to_set().insert(x).contains(
                y,
            ) by {
                if l.contains(y) {
                    let k = choose|k: int| 0 <= k < l.len() && l[k] == y;
                }
                if r.contains(y) {
                    let k = choose|k: int| 0 <= k < r.len() && r[k] == y;
                }
            }
        }
        r
    } else {
        let y = l.last();
        let front = l.drop_last();
        assert(l =~= front.push(y));
        front.lemma_push_to_set_commute(y);
        assert(strictly_sorted(front)) by {
            assert forall|i: int, j: int| 0 <= i < j < front.len() implies lex_lt(
                #[trigger] front[i],
                #[trigger] front[j],
            ) by {
                assert(lex_lt(l[i], l[j]));
            }
        }
        lemma_lex_total(y, x);
        if y == x {
            assert(l.to_set().contains(x));
            assert(l.to_set().insert(x) =~= l.to_set());
            l
        } else if lex_lt(y, x) {
            let r = l.push(x);
            l.lemma_push_to_set_commute(x);
            assert forall|i: int, j: int| 0 <= i < j < r.len() implies lex_lt(
                #[trigger] r[i],
                #[trigger] r[j],
            ) by {
                if j < l.len() {
                    assert(lex_lt(l[i], l[j]));
                } else if i < l.len() - 1 {
                    assert(lex_lt(l[i], l[l.len() - 1]));
                    lemma_lex_transitive(l[i], y, x);
                }
            }
            r
        } else {
            let r0 = lemma_insert_name(front, x);
            let r = r0.push(y);
            r0.lemma_push_to_set_commute(y);
            assert(r.to_set() =~= l.to_set().insert(x));
            assert forall|i: int, j: int| 0 <= i < j < r.len() implies lex_lt(
                #[trigger] r[i],
                #[trigger] r[j],
            ) by {
                if j < r0.len() {
                    assert(lex_lt(r0[i], r0[j]));
                } else {
                    assert(r0.to_set().contains(r0[i]));
                    if r0[i] != x {
                        assert(front.to_set().contains(r0[i]));
                        assert(front.contains(r0[i]));
                        let k = choose|k: int| 0 <= k < front.len() && front[k] == r0[i];
                        assert(lex_lt(l[k], l[l.len() - 1]));
                    }
                }
            }
            r
        }
    }
}

/// The names that both a list and a set hold have an ascending list, and
/// `sorted_names` is that list.
pub proof fn lemma_sorted_names_exist(s: Seq<Seq<char>>, keep: Set<Seq<char>>)
    ensures
        lists_in_order(sorted_names(s.to_set().intersect(keep)), s.to_set().intersect(keep)),
    decreases s.len(),
{
    let set = s.to_set().intersect(keep);
    if s.len() == 0 {
        let l = Seq::<Seq<char>>::empty();
        assert(l.to_set() =~= set) by {
            assert forall|y: Seq<char>| l.to_set().contains(y) <==> set.contains(y) by {
                if s.contains(y) {
                    let k = choose|k: int| 0 <= k < s.len() && s[k] == y;
                }
                if l.contains(y) {
                    let k = choose|k: int| 0 <= k < l.len() && l[k] == y;
                }
            }
        }
        assert(lists_in_order(l, set));
    } else {
        let front = s.drop_last();
        let x = s.last();
        assert(s =~= front.push(x));
        front.lemma_push_to_set_commute(x);
        lemma_sorted_names_exist(front, keep);
        let l0 = sorted_names(front.to_set().intersect(keep));
        if keep.contains(x) {
            let l = lemma_insert_name(l0, x);
            assert(l.to_set() =~= set);
            assert(lists_in_order(l, set));
        } else {
            assert(l0.to_set() =~= set);
            assert(lists_in_order(l0, set));
        }
    }
}

/// The names of a list have an ascending list, and `sorted_names` is that
/// list.
pub proof fn lemma_sorted_names_of_list(s: Seq<Seq<char>>)
    ensures
        lists_in_order(sorted_names(s.to_set()), s.to_set()),
{
    lemma_sorted_names_exist(s, Set::full());
    assert(s.to_set().intersect(Set::full()) =~= s.to_set());
}

/// Puts `name` at its place in the ascending list `r`, unless it is there
/// already.
pub(crate) fn insert_sorted(r: &mut Vec<String>, name: &String)
    requires
        strictly_sorted(old(r).deep_view()),
    ensures
        strictly_sorted(final(r).deep_view()),
        final(r).deep_view().to_set() == old(r).deep_view().to_set().insert(name@),
{
    let ghost before = r.deep_view();
    let mut k: usize = 0;
    while k < r.len() && str_lt(r[k].as_str(), name.as_str())
        invariant
            k <= r.len(),
            r.deep_view() == before,
            forall|j: int| 0 <= j < k ==> lex_lt(#[trigger] before[j], name@),
        decreases r.len() - k,
    {
        assert(before[k as int] == r[k as int]@);
        k += 1;
    }
    if k < r.len() && r[k] == *name {
        assert(before[k as int] == name@);
        assert(before.contains(name@));
        assert(before.to_set().insert(name@) =~= before.to_set());
        return ;
    }
    r.insert(k, name.clone());
    proof {
        let after = r.deep_view();
        assert(after =~= before.insert(k as int, name@));
        if k < before.len() {
            assert(before[k as int] == old(r)[k as int]@);
            lemma_lex_total(before[k as int], name@);
        }
        assert forall|i: int, j: int| 0 <= i < j < after.len() implies lex_lt(
            #[trigger] after[i],
            #[trigger] after[j],
        ) by {
            if j < k {
                assert(lex_lt(before[i], before[j]));
            } else if j == k {
                assert(lex_lt(before[i], name@));
            } else if i < k {
                assert(lex_lt(before[i], before[j - 1]));
            } else if i == k {
                if j - 1 > k {
                    assert(lex_lt(before[k as int], before[j - 1]));
                    lemma_lex_transitive(name@, before[k as int], before[j - 1]);
                }
            } else {
                assert(lex_lt(before[i - 1], before[j - 1]));
            }
        }
        assert forall|x: Seq<char>| after.to_set().contains(x) <==> before.to_set().insert(
            name@,
        ).contains(x) by {
            if after.contains(x) {
                let m = choose|m: int| 0 <= m < after.len() && after[m] == x;
                if m < k {
                    assert(before[m] == x);
                } else if m > k {
                    assert(before[m - 1] == x);
                }
            }
            if before.contains(x) {
                let m = choose|m: int| 0 <= m < before.len() && before[m] == x;
                if m < k {
                    assert(after[m] == x);
                } else {
                    assert(after[m + 1] == x);
                }
            }
            if x == name@ {
                assert(after[k as int] == x);
            }
        }
        assert(after.to_set() =~= before.to_set().insert(name@));
    }
}

/// The names that `names` lists, each once, in ascending order.
pub fn sorted_distinct(names: &[String]) -> (r: Vec<String>)
    ensures
        r.deep_view() == sorted_names(names.deep_view().to_set()),
{
    let mut r: Vec<String> = Vec::new();
    let mut i: usize = 0;
    assert(r.deep_view().to_set() =~= names.deep_view().take(0).to_set());
    while i < names.len()
        invariant
            i <= names.len(),
            strictly_sorted(r.deep_view()),
            r.deep_view().to_set() == names.deep_view().take(i as int).to_set(),
        decreases names.len() - i,
    {
        insert_sorted(&mut r, &names[i]);
        proof {
            lemma_take_next_to_set(names.deep_view(), i as int);
        }
        i += 1;
    }
    proof {
        assert(names.deep_view().take(names.len() as int) =~= names.deep_view());
        lemma_sorted_names(r.deep_view(), names.deep_view().to_set());
    }
    r
}

} // verus!
