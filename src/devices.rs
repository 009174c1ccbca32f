//! Output devices, known only by their names: the host offers no stable
//! identifier, so a device's name is its identity.
use vstd::prelude::*;

verus! {

/// One entry of the device list; `id` and `name` are the same text.
#[derive(Clone, Debug)]
pub struct DeviceEntry {
    pub id: String,
    pub name: String,
}

/// `r` is the index of the first of `names` equal to `wanted`, or `None` when
/// none is.
pub open spec fn is_first_match(names: Seq<String>, wanted: Seq<char>, r: Option<usize>) -> bool {
    match r {
        Some(i) => i < names.len() && names[i as int]@ == wanted
            && forall|j: int| 0 <= j < i ==> names[j]@ != wanted,
        None => forall|j: int| 0 <= j < names.len() ==> names[j]@ != wanted,
    }
}

/// Chooses among the names of the available outputs: the first one equal to
/// `wanted`, or `None` (meaning the system default) when `wanted` is absent or
/// matches none. Two devices of one name resolve to the earlier of them.
pub fn select_output_device(names: &Vec<String>, wanted: &Option<String>) -> (r: Option<usize>)
    ensures
        wanted is None ==> r is None,
        wanted matches Some(w) ==> is_first_match(names@, w@, r),
{
    match wanted {
        None => None,
        Some(w) => {
            let mut i: usize = 0;
            while i < names.len()
                invariant
                    i <= names.len(),
                    forall|j: int| 0 <= j < i ==> names@[j]@ != w@,
                    *wanted == Some(*w),
                decreases names.len() - i,
            {
                if names[i] == *w {
                    return Some(i);
                }
                i += 1;
            }
            None
        },
    }
}

/// The device list as it is reported: each name becomes an entry whose
/// identifier is that name, in the host's order.
pub fn device_entries(names: &Vec<String>) -> (r: Vec<DeviceEntry>)
    ensures
        r.len() == names.len(),
        forall|i: int| 0 <= i < r.len() ==> r@[i].id@ == names@[i]@ && r@[i].name@ == names@[i]@,
{
    let mut r: Vec<DeviceEntry> = Vec::new();
    let mut i: usize = 0;
    while i < names.len()
        invariant
            i <= names.len(),
            r.len() == i,
            forall|k: int| 0 <= k < i ==> r@[k].id@ == names@[k]@ && r@[k].name@ == names@[k]@,
        decreases names.len() - i,
    {
        r.push(DeviceEntry { id: names[i].clone(), name: names[i].clone() });
        i += 1;
    }
    r
}

} // verus!
