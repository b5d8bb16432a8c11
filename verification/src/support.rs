use std::rc::Rc;
use vstd::prelude::*;

verus! {

broadcast use vstd::string::group_string_axioms;

/// Whether two string slices hold the same characters.
pub fn str_eq(a: &str, b: &str) -> (r: bool)
    ensures
        r == (a@ == b@),
{
    let x = a.to_string();
    let y = b.to_string();
    x == y
}

/// A new owned copy of a string slice.
pub fn owned(s: &str) -> (r: String)
    ensures
        r@ == s@,
{
    s.to_string()
}

/// Whether `i` is the position of the first name in `names` that equals
/// `name`.
pub open spec fn is_first_named(names: Seq<Seq<char>>, name: Seq<char>, i: int) -> bool {
    &&& 0 <= i < names.len()
    &&& names[i] == name
    &&& forall|j: int| 0 <= j < i ==> #[trigger] names[j] != name
}

/// The first position of a name is unique.
pub proof fn lemma_first_named_unique(names: Seq<Seq<char>>, name: Seq<char>, i: int)
    requires
        is_first_named(names, name, i),
    ensures
        forall|k: int| is_first_named(names, name, k) ==> k == i,
{
    assert forall|k: int| is_first_named(names, name, k) implies k == i by {
        if k < i {
            assert(names[k] != name);
        } else if k > i {
            assert(names[i] != name);
        }
    }
}

/// `Rc::clone`: a second pointer to the same allocation, so the value it
/// points to is the same value.
#[verifier::external_body]
pub fn share<T>(p: &Rc<T>) -> (r: Rc<T>)
    ensures
        r == *p,
{
    Rc::clone(p)
}

} // verus!
