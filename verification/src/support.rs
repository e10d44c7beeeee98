//! Name-list containment checks, shared by the instance-layer check and
//! the device-extension check.  Names are byte strings as the driver
//! reports them.

use vstd::prelude::*;

verus! {

/// `name` occurs in `list`.
pub open spec fn spec_contains(list: Seq<Vec<u8>>, name: Seq<u8>) -> bool {
    exists|i: int| 0 <= i < list.len() && (#[trigger] list[i])@ == name
}

/// Every required name occurs in the available list.
pub open spec fn names_contained(required: Seq<Vec<u8>>, available: Seq<Vec<u8>>) -> bool {
    forall|i: int| 0 <= i < required.len() ==> spec_contains(available, (#[trigger] required[i])@)
}

/// Byte-for-byte equality of two names.
pub fn bytes_equal(a: &Vec<u8>, b: &Vec<u8>) -> (r: bool)
    ensures
        r == (a@ == b@),
{
    if a.len() != b.len() {
        assert(a@ != b@);
        return false;
    }
    let n = a.len();
    let mut i: usize = 0;
    while i < n
        invariant
            n == a@.len(),
            n == b@.len(),
            i <= n,
            forall|j: int| 0 <= j < i ==> a@[j] == b@[j],
        decreases n - i,
    {
        if a[i] != b[i] {
            assert(a@ != b@);
            return false;
        }
        i = i + 1;
    }
    assert(a@ =~= b@);
    true
}

/// Whether `name` occurs in `list`.
pub fn contains_name(list: &Vec<Vec<u8>>, name: &Vec<u8>) -> (r: bool)
    ensures
        r == spec_contains(list@, name@),
{
    let n = list.len();
    let mut i: usize = 0;
    while i < n
        invariant
            n == list@.len(),
            i <= n,
            forall|j: int| 0 <= j < i ==> (#[trigger] list@[j])@ != name@,
        decreases n - i,
    {
        if bytes_equal(&list[i], name) {
            assert(spec_contains(list@, name@));
            return true;
        }
        i = i + 1;
    }
    assert(!spec_contains(list@, name@));
    false
}

/// Whether every required name is present in the available list.  This is
/// the device-extension support check; the instance-layer check is the
/// same question over layer names.
pub fn check_device_extension_support(required: &Vec<Vec<u8>>, available: &Vec<Vec<u8>>) -> (r:
    bool)
    ensures
        r == names_contained(required@, available@),
{
    let n = required.len();
    let mut i: usize = 0;
    while i < n
        invariant
            n == required@.len(),
            i <= n,
            forall|k: int| 0 <= k < i ==> spec_contains(available@, (#[trigger] required@[k])@),
        decreases n - i,
    {
        if !contains_name(available, &required[i]) {
            assert(!names_contained(required@, available@)) by {
                if names_contained(required@, available@) {
                    assert(spec_contains(available@, required@[i as int]@));
                }
            };
            return false;
        }
        i = i + 1;
    }
    assert(names_contained(required@, available@));
    true
}

} // verus!
