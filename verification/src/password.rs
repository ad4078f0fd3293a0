//! A named secret record as the page state machine sees it.

use vstd::prelude::*;

verus! {

/// One secret as listed in the vault: the name is the storage key; the
/// encrypted body lives on the storage medium and is never held here.
#[derive(Debug, Clone)]
pub struct Password {
    pub name: String,
}

impl View for Password {
    type V = Seq<char>;

    open spec fn view(&self) -> Seq<char> {
        self.name@
    }
}

/// The names of a sequence of records, in order.
pub open spec fn names_of(l: Seq<Password>) -> Seq<Seq<char>> {
    l.map_values(|p: Password| p.name@)
}

/// Taking names commutes with appending a record.
pub proof fn lemma_names_of_push(s: Seq<Password>, p: Password)
    ensures
        names_of(s.push(p)) =~= names_of(s).push(p.name@),
{
    assert forall|j: int| 0 <= j < s.len() + 1 implies names_of(s.push(p))[j] == names_of(s).push(
        p.name@,
    )[j] by {
        assert(names_of(s.push(p))[j] == s.push(p)[j].name@);
    }
}

/// Taking names commutes with removing a record.
pub proof fn lemma_names_of_remove(s: Seq<Password>, i: int)
    requires
        0 <= i < s.len(),
    ensures
        names_of(s.remove(i)) =~= names_of(s).remove(i),
{
    assert forall|j: int| 0 <= j < s.len() - 1 implies names_of(s.remove(i))[j] == names_of(
        s,
    ).remove(i)[j] by {
        assert(names_of(s.remove(i))[j] == s.remove(i)[j].name@);
    }
}

/// Copy a record list: the copy lists the same names in the same order.
pub fn clone_passwords(v: &Vec<Password>) -> (r: Vec<Password>)
    ensures
        names_of(r@) == names_of(v@),
{
    let mut r: Vec<Password> = Vec::new();
    let mut i: usize = 0;
    while i < v.len()
        invariant
            i <= v.len(),
            r@.len() == i,
            forall|j: int| 0 <= j < i ==> r@[j].name@ == v@[j].name@,
        decreases v.len() - i,
    {
        r.push(Password { name: v[i].name.clone() });
        i += 1;
    }
    proof {
        assert(names_of(r@) =~= names_of(v@));
    }
    r
}

} // verus!
