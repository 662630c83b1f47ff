//! Physical device and queue selection.
use vstd::prelude::*;
use crate::errors::GraphicsError;
use crate::vulkan::vkbits::{device_type_values, intersects};

verus! {

/// Optional device capabilities.
#[derive(Clone, Copy, Debug, PartialEq, Eq, Structural)]
pub struct PhysicalDeviceExtensions {
    pub swapchain_compression: bool,
    pub present_support: bool,
}

impl core::default::Default for PhysicalDeviceExtensions {
    fn default() -> (r: Self)
        ensures
            !r.swapchain_compression,
            !r.present_support,
    {
        PhysicalDeviceExtensions { swapchain_compression: false, present_support: false }
    }
}

/// Picks the physical device to run on, given the raw device type of each
/// device in enumeration order: the first one when `get_first`; otherwise the
/// first discrete GPU, else the last integrated GPU, else the first device.
/// Fails with `ConnotInitLibrary` when there is no device.
pub fn pick_physical_device(types: &[i32], get_first: bool) -> (r: Result<usize, GraphicsError>)
    ensures
        r matches Err(e) ==> e == GraphicsError::ConnotInitLibrary && types@.len() == 0,
        r matches Ok(i) ==> i < types@.len(),
        types@.len() == 0 ==> r is Err,
        types@.len() > 0 && get_first ==> r == Ok::<usize, GraphicsError>(0),
        types@.len() > 0 && !get_first ==> (r matches Ok(i) && ({
            let has_discrete = exists|k: int| 0 <= k < types@.len() && types@[k] == 2;
            let has_integrated = exists|k: int| 0 <= k < types@.len() && types@[k] == 1;
            if has_discrete {
                types@[i as int] == 2 && forall|j: int| 0 <= j < i ==> types@[j] != 2
            } else if has_integrated {
                types@[i as int] == 1 && forall|j: int| i < j < types@.len() ==> types@[j] != 1
            } else {
                i == 0
            }
        })),
{
    if types.len() == 0 {
        return Err(GraphicsError::ConnotInitLibrary);
    }
    if get_first {
        return Ok(0);
    }
    let values = device_type_values();
    let mut found: Option<usize> = None;
    let mut i: usize = 0;
    while i < types.len()
        invariant
            i <= types@.len(),
            types@.len() > 0,
            !get_first,
            values.integrated_gpu == 1,
            values.discrete_gpu == 2,
            forall|j: int| 0 <= j < i ==> types@[j] != 2,
            i == 0 ==> found is None,
            i > 0 ==> found is Some,
            found matches Some(f) ==> f < i && ({
                if exists|k: int| 0 <= k < i && types@[k] == 1 {
                    types@[f as int] == 1 && forall|j: int| f < j < i ==> types@[j] != 1
                } else {
                    f == 0
                }
            }),
        decreases types@.len() - i,
    {
        let t = types[i];
        if t == values.discrete_gpu {
            return Ok(i);
        } else if t == values.integrated_gpu {
            found = Some(i);
        } else {
            if found.is_none() {
                found = Some(i);
            }
        }
        i = i + 1;
    }
    match found {
        Some(f) => Ok(f),
        None => Ok(0),
    }
}

/// A queue family as the library records it: its capabilities, index, queue
/// count and whether it can present to the surface.
#[derive(Clone, Copy, Debug, PartialEq, Eq, Structural)]
pub struct QueueFamilyInfo {
    pub flags: u32,
    pub family: u32,
    pub queue_count: u32,
    pub present_support: bool,
}

/// Entry `j` belongs to another family and shares no capability with `flags`.
pub open spec fn spec_other_disjoint(list: Seq<QueueFamilyInfo>, j: int, index: u32, flags: u32) -> bool {
    list[j].family != index && !intersects(list[j].flags, flags)
}

/// One step of queue family selection: entries of family `index` take the
/// family's capabilities and presentation support; the family is added when
/// the list is empty or some other entry shares no capability with it.
pub open spec fn spec_family_step(
    list: Seq<QueueFamilyInfo>,
    index: u32,
    flags: u32,
    count: u32,
    present: bool,
) -> Seq<QueueFamilyInfo> {
    let updated = list.map_values(|e: QueueFamilyInfo|
        if e.family == index {
            QueueFamilyInfo { flags: e.flags | flags, present_support: present, ..e }
        } else {
            e
        }
    );
    let to_push = exists|j: int| 0 <= j < list.len() && #[trigger] spec_other_disjoint(list, j, index, flags);
    if to_push || list.len() == 0 {
        updated.push(QueueFamilyInfo { flags, family: index, queue_count: count, present_support: present })
    } else {
        updated
    }
}

/// Queue family selection over the first `p` reported families (raw flags and
/// queue count each, `present[i]` whether family `i` can present): families
/// without queues are skipped, the others are stepped through under their own
/// index. Returns the list and the number of families with queues.
pub open spec fn spec_select_families(families: Seq<(u32, u32)>, present: Seq<bool>, p: nat) -> (Seq<QueueFamilyInfo>, nat)
    decreases p,
{
    if p == 0 {
        (Seq::empty(), 0)
    } else {
        let prev = spec_select_families(families, present, (p - 1) as nat);
        let fam = families[p - 1];
        if fam.1 == 0 {
            prev
        } else {
            (spec_family_step(prev.0, (p - 1) as u32, fam.0, fam.1, present[p - 1]), prev.1 + 1)
        }
    }
}

/// A step appends the new family exactly when the list is empty or some
/// listed family of another index shares no capability bit with it; the
/// appended entry has the family's own capabilities, index, queue count and
/// presentation support. Otherwise the list keeps its length.
pub proof fn lemma_family_step_appends(list: Seq<QueueFamilyInfo>, index: u32, flags: u32, count: u32, present: bool)
    ensures
        ({
            let step = spec_family_step(list, index, flags, count, present);
            let disjoint = exists|j: int| 0 <= j < list.len() && list[j].family != index && #[trigger] (list[j].flags & flags) == 0;
            &&& (disjoint || list.len() == 0) ==> step.len() == list.len() + 1
                && step.last() == (QueueFamilyInfo { flags, family: index, queue_count: count, present_support: present })
            &&& !(disjoint || list.len() == 0) ==> step.len() == list.len()
        }),
{
    let disjoint = exists|j: int| 0 <= j < list.len() && list[j].family != index && #[trigger] (list[j].flags & flags) == 0;
    let to_push = exists|j: int| 0 <= j < list.len() && #[trigger] spec_other_disjoint(list, j, index, flags);
    if disjoint {
        let j = choose|j: int| 0 <= j < list.len() && list[j].family != index && #[trigger] (list[j].flags & flags) == 0;
        assert(spec_other_disjoint(list, j, index, flags));
    }
    if to_push {
        let j = choose|j: int| 0 <= j < list.len() && #[trigger] spec_other_disjoint(list, j, index, flags);
        assert((list[j].flags & flags) == 0);
    }
    assert(disjoint == to_push);
}

/// Selection over the first `p` families ends with family `p - 1` when that
/// family has queues and the selection before it was empty or held a family
/// of another index sharing no capability bit with it.
pub proof fn lemma_select_appends_disjoint_family(families: Seq<(u32, u32)>, present: Seq<bool>, p: nat)
    requires
        0 < p <= families.len(),
        families[p - 1].1 != 0,
        ({
            let prev = spec_select_families(families, present, (p - 1) as nat).0;
            prev.len() == 0 || exists|j: int| 0 <= j < prev.len() && prev[j].family != (p - 1) as u32
                && #[trigger] (prev[j].flags & families[p - 1].0) == 0
        }),
    ensures
        spec_select_families(families, present, p).0.last() == (QueueFamilyInfo {
            flags: families[p - 1].0,
            family: (p - 1) as u32,
            queue_count: families[p - 1].1,
            present_support: present[p - 1],
        }),
        spec_select_families(families, present, p).0.len() == spec_select_families(families, present, (p - 1) as nat).0.len() + 1,
{
    let prev = spec_select_families(families, present, (p - 1) as nat).0;
    lemma_family_step_appends(prev, (p - 1) as u32, families[p - 1].0, families[p - 1].1, present[p - 1]);
}

/// The count of families with queues is at most the number of families
/// stepped through, and does not depend on presentation support.
pub proof fn lemma_select_count(families: Seq<(u32, u32)>, present: Seq<bool>, p: nat)
    requires
        p <= families.len(),
    ensures
        spec_select_families(families, present, p).1 == spec_select_families(families, Seq::empty(), p).1,
        spec_select_families(families, present, p).1 <= p,
    decreases p,
{
    if p > 0 {
        lemma_select_count(families, present, (p - 1) as nat);
    }
}

/// Selects the queue families to create queues from. `families` holds the
/// raw capability flags and queue count of each family the device reports,
/// `present[i]` whether family `i` can present; family indices are 32-bit.
pub fn select_queue_families(families: &[(u32, u32)], present: &[bool]) -> (r: Vec<QueueFamilyInfo>)
    requires
        present@.len() >= families@.len(),
        families@.len() <= u32::MAX,
    ensures
        r@ == spec_select_families(families@, present@, families@.len()).0,
{
    let mut list: Vec<QueueFamilyInfo> = Vec::new();
    let mut index: usize = 0;
    let mut p: usize = 0;
    while p < families.len()
        invariant
            p <= families@.len(),
            present@.len() >= families@.len(),
            families@.len() <= u32::MAX,
            (list@, index as nat) == spec_select_families(families@, present@, p as nat),
        decreases families@.len() - p,
    {
        proof {
            lemma_select_count(families@, present@, (p + 1) as nat);
        }
        let (flags, count) = families[p];
        let family = p as u32;
        if count != 0 {
            let ps = present[p];
            let ghost old_list = list@;
            let mut to_push = false;
            let mut j: usize = 0;
            while j < list.len()
                invariant
                    j <= list@.len(),
                    list@.len() == old_list.len(),
                    forall|k: int| 0 <= k < j ==> list@[k] == (if old_list[k].family == family {
                        QueueFamilyInfo { flags: old_list[k].flags | flags, present_support: ps, ..old_list[k] }
                    } else {
                        old_list[k]
                    }),
                    forall|k: int| j <= k < list@.len() ==> list@[k] == old_list[k],
                    to_push == exists|k: int| 0 <= k < j && #[trigger] spec_other_disjoint(old_list, k, family, flags),
                decreases list@.len() - j,
            {
                let e = list[j];
                if e.family == family {
                    list.set(j, QueueFamilyInfo { flags: e.flags | flags, present_support: ps, ..e });
                } else if e.flags & flags == 0 {
                    to_push = true;
                    assert(spec_other_disjoint(old_list, j as int, family, flags));
                }
                proof {
                    if !spec_other_disjoint(old_list, j as int, family, flags) {
                        assert forall|k: int| 0 <= k < j + 1 && #[trigger] spec_other_disjoint(old_list, k, family, flags) implies k < j by {}
                    }
                }
                j = j + 1;
            }
            if to_push || list.len() == 0 {
                list.push(QueueFamilyInfo { flags, family: family, queue_count: count, present_support: ps });
            }
            proof {
                let step = spec_family_step(old_list, family, flags, count, ps);
                assert(list@ =~= step);
            }
            index = index + 1;
        }
        p = p + 1;
    }
    list
}

/// A device is usable only when queue families were selected; it is not
/// supported otherwise.
pub fn require_queue_families(families: &[QueueFamilyInfo]) -> (r: Result<(), GraphicsError>)
    ensures
        r is Ok <==> families@.len() > 0,
        r matches Err(e) ==> e == GraphicsError::NotSupportedDevice,
{
    if families.len() == 0 {
        Err(GraphicsError::NotSupportedDevice)
    } else {
        Ok(())
    }
}

/// Selection keeps every family it has taken, and takes the first family
/// with queues: the list is empty exactly when no family has queues.
pub proof fn lemma_selected_families_nonempty(families: Seq<(u32, u32)>, present: Seq<bool>, p: nat)
    requires
        p <= families.len(),
    ensures
        (spec_select_families(families, present, p).0.len() == 0) <==> (spec_select_families(families, present, p).1 == 0),
    decreases p,
{
    if p > 0 {
        lemma_select_families_nonempty_step(families, present, (p - 1) as nat);
        lemma_selected_families_nonempty(families, present, (p - 1) as nat);
    }
}

proof fn lemma_select_families_nonempty_step(families: Seq<(u32, u32)>, present: Seq<bool>, p: nat)
    requires
        p < families.len(),
    ensures
        spec_select_families(families, present, p).0.len() <= spec_select_families(families, present, p + 1).0.len(),
        families[p as int].1 != 0 ==> spec_select_families(families, present, p + 1).0.len() > 0,
{
}

/// One queue to create: its family, index within the family, and the family's
/// capabilities and presentation support.
#[derive(Clone, Copy, Debug, PartialEq, Eq, Structural)]
pub struct QueueSlot {
    pub family: u32,
    pub index: u32,
    pub flags: u32,
    pub present_support: bool,
}

/// The queues of the first `n` selected families, family by family.
pub open spec fn spec_queue_slots(families: Seq<QueueFamilyInfo>, n: nat) -> Seq<QueueSlot>
    decreases n,
{
    if n == 0 {
        Seq::empty()
    } else {
        let f = families[n - 1];
        spec_queue_slots(families, (n - 1) as nat) + Seq::new(f.queue_count as nat, |i: int| QueueSlot {
            family: f.family,
            index: i as u32,
            flags: f.flags,
            present_support: f.present_support,
        })
    }
}

/// Total number of queues of the first `n` families.
pub open spec fn spec_total_queues(families: Seq<QueueFamilyInfo>, n: nat) -> nat
    decreases n,
{
    if n == 0 { 0 } else { spec_total_queues(families, (n - 1) as nat) + families[n - 1].queue_count as nat }
}

/// The queue list creates every queue of every family once: its length is
/// the sum of the families' queue counts, and for each family and each index
/// below its queue count, the queue at that index of that family is listed
/// with the family's capabilities and presentation support.
pub proof fn lemma_queue_slots_complete(families: Seq<QueueFamilyInfo>, n: nat)
    requires
        n <= families.len(),
    ensures
        spec_queue_slots(families, n).len() == spec_total_queues(families, n),
        forall|m: int, i: int| 0 <= m < n && 0 <= i < families[m].queue_count ==>
            #[trigger] spec_queue_slots(families, n).contains(QueueSlot {
                family: families[m].family,
                index: i as u32,
                flags: families[m].flags,
                present_support: families[m].present_support,
            }),
    decreases n,
{
    if n > 0 {
        lemma_queue_slots_complete(families, (n - 1) as nat);
        let prev = spec_queue_slots(families, (n - 1) as nat);
        let f = families[n - 1];
        let tail = Seq::new(f.queue_count as nat, |i: int| QueueSlot {
            family: f.family,
            index: i as u32,
            flags: f.flags,
            present_support: f.present_support,
        });
        let all = spec_queue_slots(families, n);
        assert(all == prev + tail);
        assert forall|m: int, i: int| 0 <= m < n && 0 <= i < families[m].queue_count implies
            #[trigger] all.contains(QueueSlot {
                family: families[m].family,
                index: i as u32,
                flags: families[m].flags,
                present_support: families[m].present_support,
            }) by {
            let slot = QueueSlot {
                family: families[m].family,
                index: i as u32,
                flags: families[m].flags,
                present_support: families[m].present_support,
            };
            if m < n - 1 {
                assert(prev.contains(slot));
                let k = choose|k: int| 0 <= k < prev.len() && prev[k] == slot;
                assert(all[k] == slot);
            } else {
                assert(all[prev.len() + i] == tail[i]);
                assert(all[prev.len() + i] == slot);
            }
        }
    }
}

/// Lists the queues to create: every queue of every selected family, in order.
pub fn queue_slots(families: &[QueueFamilyInfo]) -> (r: Vec<QueueSlot>)
    requires
        spec_queue_slots(families@, families@.len()).len() <= usize::MAX,
    ensures
        r@ == spec_queue_slots(families@, families@.len()),
        r@.len() == spec_total_queues(families@, families@.len()),
{
    proof {
        lemma_queue_slots_complete(families@, families@.len());
    }
    let mut r: Vec<QueueSlot> = Vec::new();
    let mut n: usize = 0;
    while n < families.len()
        invariant
            n <= families@.len(),
            spec_queue_slots(families@, families@.len()).len() <= usize::MAX,
            r@ == spec_queue_slots(families@, n as nat),
        decreases families@.len() - n,
    {
        let f = families[n];
        let ghost before = r@;
        let mut i: u32 = 0;
        proof {
            lemma_queue_slots_grow(families@, (n + 1) as nat, families@.len());
        }
        while i < f.queue_count
            invariant
                i <= f.queue_count,
                before.len() + f.queue_count <= usize::MAX,
                r@ == before + Seq::new(i as nat, |k: int| QueueSlot {
                    family: f.family,
                    index: k as u32,
                    flags: f.flags,
                    present_support: f.present_support,
                }),
            decreases f.queue_count - i,
        {
            r.push(QueueSlot { family: f.family, index: i, flags: f.flags, present_support: f.present_support });
            proof {
                assert(r@ =~= before + Seq::new((i + 1) as nat, |k: int| QueueSlot {
                    family: f.family,
                    index: k as u32,
                    flags: f.flags,
                    present_support: f.present_support,
                }));
            }
            i = i + 1;
        }
        n = n + 1;
    }
    r
}

/// The queue list of a prefix is no longer than that of a longer prefix.
pub proof fn lemma_queue_slots_grow(families: Seq<QueueFamilyInfo>, n: nat, m: nat)
    requires
        n <= m <= families.len(),
    ensures
        spec_queue_slots(families, n).len() <= spec_queue_slots(families, m).len(),
    decreases m - n,
{
    if n < m {
        lemma_queue_slots_grow(families, n, (m - 1) as nat);
    }
}

/// Whether two byte strings are equal.
pub fn bytes_equal(a: &[u8], b: &[u8]) -> (r: bool)
    ensures
        r == (a@ == b@),
{
    if a.len() != b.len() {
        return false;
    }
    let mut i: usize = 0;
    while i < a.len()
        invariant
            i <= a@.len(),
            a@.len() == b@.len(),
            a@.subrange(0, i as int) == b@.subrange(0, i as int),
        decreases a@.len() - i,
    {
        if a[i] != b[i] {
            assert(a@[i as int] != b@[i as int]);
            return false;
        }
        assert(a@.subrange(0, i + 1) =~= a@.subrange(0, i as int).push(a@[i as int]));
        assert(b@.subrange(0, i + 1) =~= b@.subrange(0, i as int).push(b@[i as int]));
        i = i + 1;
    }
    assert(a@ =~= a@.subrange(0, a@.len() as int));
    assert(b@ =~= b@.subrange(0, b@.len() as int));
    true
}

/// Whether `name` is among `names` (as byte strings).
pub open spec fn spec_has_name(names: Seq<Vec<u8>>, name: Seq<u8>) -> bool {
    exists|k: int| 0 <= k < names.len() && #[trigger] names[k]@ == name
}

/// Whether `name` is among `names`.
pub fn has_name(names: &[Vec<u8>], name: &[u8]) -> (r: bool)
    ensures
        r == spec_has_name(names@, name@),
{
    let mut k: usize = 0;
    while k < names.len()
        invariant
            k <= names@.len(),
            forall|j: int| 0 <= j < k ==> names@[j]@ != name@,
        decreases names@.len() - k,
    {
        if bytes_equal(names[k].as_slice(), name) {
            return true;
        }
        k = k + 1;
    }
    false
}

/// Indices, in order, of the wanted names that are available.
pub open spec fn spec_supported(wanted: Seq<Vec<u8>>, available: Seq<Vec<u8>>, n: nat) -> Seq<usize>
    decreases n,
{
    if n == 0 {
        Seq::empty()
    } else {
        let prev = spec_supported(wanted, available, (n - 1) as nat);
        if spec_has_name(available, wanted[n - 1]@) {
            prev.push((n - 1) as usize)
        } else {
            prev
        }
    }
}

/// The wanted names kept are exactly the available ones: an index below `n`
/// is kept exactly when the name wanted at that index is among the available
/// names, every kept index is below `n`, and kept indices increase.
pub proof fn lemma_supported_exactly_available(wanted: Seq<Vec<u8>>, available: Seq<Vec<u8>>, n: nat)
    requires
        n <= wanted.len(),
        wanted.len() <= usize::MAX,
    ensures
        forall|i: int| 0 <= i < n ==> (spec_supported(wanted, available, n).contains(i as usize)
            <==> #[trigger] spec_has_name(available, wanted[i]@)),
        forall|k: int| 0 <= k < spec_supported(wanted, available, n).len() ==> #[trigger] spec_supported(wanted, available, n)[k] < n,
        forall|k: int, l: int| 0 <= k < l < spec_supported(wanted, available, n).len()
            ==> #[trigger] spec_supported(wanted, available, n)[k] < #[trigger] spec_supported(wanted, available, n)[l],
    decreases n,
{
    if n > 0 {
        lemma_supported_exactly_available(wanted, available, (n - 1) as nat);
        let prev = spec_supported(wanted, available, (n - 1) as nat);
        let cur = spec_supported(wanted, available, n);
        let last = (n - 1) as usize;
        assert forall|i: int| 0 <= i < n implies (cur.contains(i as usize)
            <==> #[trigger] spec_has_name(available, wanted[i]@)) by {
            if i < n - 1 {
                if cur.contains(i as usize) {
                    let k = choose|k: int| 0 <= k < cur.len() && cur[k] == i as usize;
                    if k < prev.len() {
                        assert(prev[k] == cur[k]);
                    }
                }
                if prev.contains(i as usize) {
                    let k = choose|k: int| 0 <= k < prev.len() && prev[k] == i as usize;
                    assert(cur[k] == prev[k]);
                }
            } else {
                if spec_has_name(available, wanted[i]@) {
                    assert(cur[cur.len() - 1] == last);
                } else {
                    if cur.contains(i as usize) {
                        let k = choose|k: int| 0 <= k < cur.len() && cur[k] == i as usize;
                        assert(cur[k] == prev[k]);
                    }
                }
            }
        }
    }
}

/// Keeps the wanted device extensions that the device offers, in the order
/// they are wanted; returns their indices in `wanted`.
pub fn supported_extensions(wanted: &[Vec<u8>], available: &[Vec<u8>]) -> (r: Vec<usize>)
    ensures
        r@ == spec_supported(wanted@, available@, wanted@.len()),
        forall|i: int| 0 <= i < wanted@.len() ==> (r@.contains(i as usize)
            <==> #[trigger] spec_has_name(available@, wanted@[i]@)),
{
    let wanted_len = wanted.len();
    proof {
        lemma_supported_exactly_available(wanted@, available@, wanted_len as nat);
    }
    let mut r: Vec<usize> = Vec::new();
    let mut n: usize = 0;
    while n < wanted.len()
        invariant
            n <= wanted@.len(),
            r@ == spec_supported(wanted@, available@, n as nat),
        decreases wanted@.len() - n,
    {
        if has_name(available, wanted[n].as_slice()) {
            r.push(n);
        }
        n = n + 1;
    }
    r
}

/// Whether a queue count fits the priority list the device is created with
/// (256 entries).
pub fn queue_count_supported(queue_count: u32) -> (r: bool)
    ensures
        r == (queue_count <= 256),
{
    queue_count <= 256
}

} // verus!
