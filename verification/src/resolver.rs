//! Volume resolution: mapping a device-interface identifier to a mounted
//! filesystem path.
//!
//! The OS answers three chained queries per attempt (open the device and
//! read its volume label, look up the canonical volume name, enumerate the
//! mount points bound to that volume). The surrounding application performs
//! those calls and records how far they got; this module holds the verified
//! decision core: parsing the NUL-delimited buffers the OS hands back,
//! selecting the first non-empty mount point in enumeration order, and
//! classifying each failure.

use vstd::prelude::*;
use crate::device::DeviceNameId;

verus! {

/// How the volume subsystem answers resolution attempts. Its variants are
/// classified into `ResolveError`s, or resolved into a `DeviceNameId`.
#[derive(Debug)]
pub enum ResolveError {
    /// The device could not be opened (it vanished or is inaccessible);
    /// carries the platform error code. Retried on a later notification.
    DeviceUnavailable(u32),
    /// A volume query failed; carries the platform error code. Resolution
    /// is abandoned for this attempt.
    VolumeLookupFailed(u32),
}

/// How far the three chained OS lookups got on one resolution attempt.
/// The application performs the calls in order and stops at the first
/// failure; each failure records the platform error code.
pub enum VolumeLookups {
    /// Opening the device by its interface identifier failed.
    OpenFailed(u32),
    /// The device opened (yielding its volume label), but the canonical
    /// volume name could not be looked up.
    CanonicalFailed { label: String, code: u32 },
    /// Label and canonical name were found, but enumerating the mount
    /// points failed.
    MountsFailed { label: String, code: u32 },
    /// All three lookups succeeded: the label, and the mount points bound
    /// to the volume, in enumeration order.
    Resolved { label: String, mounts: Vec<String> },
}

/// The entries of a NUL-delimited buffer, in order: the buffer is cut at
/// every NUL unit, so `"a\0b\0"` yields `["a", "b", ""]` and an empty
/// buffer yields `[""]`.
pub open spec fn split_at_nuls(s: Seq<u16>) -> Seq<Seq<u16>>
    decreases s.len(),
{
    if s.len() == 0 {
        seq![Seq::<u16>::empty()]
    } else if s[0] == 0 {
        seq![Seq::<u16>::empty()] + split_at_nuls(s.skip(1))
    } else {
        let rest = split_at_nuls(s.skip(1));
        seq![seq![s[0]] + rest[0]] + rest.skip(1)
    }
}

/// A split always yields at least one entry.
pub proof fn lemma_split_at_nuls_len(s: Seq<u16>)
    ensures
        split_at_nuls(s).len() >= 1,
    decreases s.len(),
{
    if s.len() == 0 {
    } else if s[0] == 0 {
        lemma_split_at_nuls_len(s.skip(1));
    } else {
        lemma_split_at_nuls_len(s.skip(1));
    }
}

/// A buffer without a NUL is one single entry.
pub proof fn lemma_split_at_nuls_whole(s: Seq<u16>)
    requires
        forall|j: int| 0 <= j < s.len() ==> s[j] != 0,
    ensures
        split_at_nuls(s) == seq![s],
    decreases s.len(),
{
    if s.len() == 0 {
        assert(s =~= Seq::<u16>::empty());
        assert(split_at_nuls(s) =~~= seq![s]);
    } else {
        lemma_split_at_nuls_whole(s.skip(1));
        assert(seq![s[0]] + s.skip(1) =~= s);
        assert(split_at_nuls(s) =~~= seq![s]);
    }
}

/// Cutting at the first NUL: the entry before it, then the split of what
/// follows it.
pub proof fn lemma_split_at_nuls_step(s: Seq<u16>, k: int)
    requires
        0 <= k < s.len(),
        s[k] == 0,
        forall|j: int| 0 <= j < k ==> s[j] != 0,
    ensures
        split_at_nuls(s) == seq![s.take(k)] + split_at_nuls(s.skip(k + 1)),
    decreases k,
{
    if k == 0 {
        assert(s.take(0) =~= Seq::<u16>::empty());
        assert(split_at_nuls(s) =~~= seq![s.take(0)] + split_at_nuls(s.skip(1)));
    } else {
        let t = s.skip(1);
        assert(t[k - 1] == 0);
        lemma_split_at_nuls_step(t, k - 1);
        lemma_split_at_nuls_len(t.skip(k));
        assert(t.skip(k) =~= s.skip(k + 1));
        assert(seq![s[0]] + t.take(k - 1) =~= s.take(k));
        assert(split_at_nuls(s) =~~= seq![s.take(k)] + split_at_nuls(s.skip(k + 1)));
    }
}

/// Cuts a buffer as the OS's multi-string convention writes it: one entry
/// between every two NULs, in buffer order.
pub fn split_mount_entries(buf: &Vec<u16>) -> (r: Vec<Vec<u16>>)
    ensures
        r.deep_view() == split_at_nuls(buf@),
{
    let ghost full = buf@;
    let mut done: Vec<Vec<u16>> = Vec::new();
    let mut cur: Vec<u16> = Vec::new();
    let mut start: usize = 0;
    let mut i: usize = 0;
    proof {
        assert(full.skip(0) =~= full);
        assert(done.deep_view() =~~= Seq::<Seq<u16>>::empty());
        assert(cur@ =~= full.subrange(0, 0));
    }
    while i < buf.len()
        invariant
            0 <= start <= i <= buf.len(),
            full == buf@,
            cur@ == full.subrange(start as int, i as int),
            forall|j: int| start <= j < i ==> full[j] != 0,
            split_at_nuls(full) == done.deep_view() + split_at_nuls(full.skip(start as int)),
        decreases buf.len() - i,
    {
        let unit = buf[i];
        if unit == 0 {
            proof {
                let tail = full.skip(start as int);
                lemma_split_at_nuls_step(tail, i - start);
                assert(tail.take(i - start) =~= cur@);
                assert(tail.skip(i - start + 1) =~= full.skip(i + 1));
            }
            let entry = cur;
            cur = Vec::new();
            done.push(entry);
            proof {
                assert(done.deep_view() =~~= done.deep_view().subrange(
                    0,
                    done.deep_view().len() - 1,
                ) + seq![entry@]);
            }
            start = i + 1;
        } else {
            cur.push(unit);
            proof {
                assert(cur@ =~= full.subrange(start as int, i + 1));
            }
        }
        i = i + 1;
    }
    proof {
        let tail = full.skip(start as int);
        lemma_split_at_nuls_whole(tail);
        assert(tail =~= cur@);
    }
    done.push(cur);
    proof {
        assert(done.deep_view() =~~= done.deep_view().subrange(0, done.deep_view().len() - 1)
            + seq![cur@]);
        assert(done.deep_view() =~~= split_at_nuls(full));
    }
    done
}

/// The prefix of a buffer up to (not including) its first NUL unit, or the
/// whole buffer when it has none: how a label is read out of the
/// fixed-size buffer the OS filled.
pub fn truncate_at_nul(buf: &Vec<u16>) -> (r: Vec<u16>)
    ensures
        r@.len() <= buf@.len(),
        r@ == buf@.take(r@.len() as int),
        forall|j: int| 0 <= j < r@.len() ==> buf@[j] != 0,
        r@.len() < buf@.len() ==> buf@[r@.len() as int] == 0,
{
    let mut r: Vec<u16> = Vec::new();
    let mut i: usize = 0;
    while i < buf.len()
        invariant
            0 <= i <= buf.len(),
            r@ == buf@.take(i as int),
            forall|j: int| 0 <= j < i ==> buf@[j] != 0,
        decreases buf.len() - i,
    {
        let unit = buf[i];
        if unit == 0 {
            return r;
        }
        r.push(unit);
        proof {
            assert(r@ =~= buf@.take(i + 1));
        }
        i = i + 1;
    }
    r
}

/// The mount path a resolution chooses from the enumerated mount points:
/// the first non-empty entry in enumeration order, or nothing when every
/// entry is empty ("not yet mounted").
pub open spec fn chosen_mount(mounts: Seq<Seq<char>>) -> Option<Seq<char>>
    decreases mounts.len(),
{
    if mounts.len() == 0 {
        None
    } else if mounts[0].len() > 0 {
        Some(mounts[0])
    } else {
        chosen_mount(mounts.skip(1))
    }
}

/// The chosen mount is the first non-empty entry in enumeration order, and
/// nothing is chosen exactly when every entry is empty.
pub proof fn lemma_chosen_mount_first(mounts: Seq<Seq<char>>)
    ensures
        match chosen_mount(mounts) {
            Some(p) => exists|k: int|
                0 <= k < mounts.len() && p == mounts[k] && p.len() > 0 && (forall|j: int|
                    0 <= j < k ==> mounts[j].len() == 0),
            None => forall|j: int| 0 <= j < mounts.len() ==> mounts[j].len() == 0,
        },
    decreases mounts.len(),
{
    if mounts.len() == 0 {
    } else if mounts[0].len() > 0 {
        assert(chosen_mount(mounts) == Some(mounts[0]));
    } else {
        lemma_chosen_mount_first(mounts.skip(1));
        match chosen_mount(mounts.skip(1)) {
            Some(p) => {
                let k = choose|k: int|
                    0 <= k < mounts.skip(1).len() && p == mounts.skip(1)[k] && p.len() > 0 && (
                    forall|j: int| 0 <= j < k ==> mounts.skip(1)[j].len() == 0);
                assert(mounts[k + 1] == p);
                assert forall|j: int| 0 <= j < k + 1 implies mounts[j].len() == 0 by {
                    if j > 0 {
                        assert(mounts.skip(1)[j - 1].len() == 0);
                        assert(mounts[j] == mounts.skip(1)[j - 1]);
                    }
                }
                assert(0 <= k + 1 < mounts.len() && p == mounts[k + 1] && p.len() > 0 && (forall|
                    j: int,
                | 0 <= j < k + 1 ==> mounts[j].len() == 0));
            },
            None => {
                assert forall|j: int| 0 <= j < mounts.len() implies mounts[j].len() == 0 by {
                    if j > 0 {
                        assert(mounts.skip(1)[j - 1].len() == 0);
                        assert(mounts[j] == mounts.skip(1)[j - 1]);
                    }
                }
            },
        }
    }
}

/// Selects the mount path for a resolved volume: the first non-empty mount
/// point in enumeration order; none when every entry is empty, which the
/// caller treats as "not yet mounted" rather than a failure.
pub fn select_mount_path(mounts: &Vec<String>) -> (r: Option<String>)
    ensures
        match r {
            Some(p) => chosen_mount(mounts.deep_view()) == Some(p@),
            None => chosen_mount(mounts.deep_view()) is None,
        },
{
    let ghost all = mounts.deep_view();
    proof {
        assert(all.skip(0) =~= all);
    }
    let mut i: usize = 0;
    while i < mounts.len()
        invariant
            0 <= i <= mounts@.len(),
            all == mounts.deep_view(),
            all.len() == mounts@.len(),
            forall|j: int| 0 <= j < all.len() ==> all[j] == #[trigger] mounts@[j]@,
            chosen_mount(all) == chosen_mount(all.skip(i as int)),
        decreases mounts.len() - i,
    {
        let entry = &mounts[i];
        if !entry.as_str().is_empty() {
            proof {
                assert(all.skip(i as int)[0] == all[i as int]);
            }
            return Some(entry.clone());
        }
        proof {
            assert(all.skip(i as int)[0].len() == 0);
            assert(all.skip(i as int).skip(1) =~= all.skip(i + 1));
        }
        i = i + 1;
    }
    proof {
        assert(all.skip(i as int).len() == 0);
    }
    None
}

impl DeviceNameId {
    /// Builds the record for a device whose volume lookups all succeeded:
    /// the chosen mount path is the first non-empty enumerated entry, so a
    /// returned record never carries an empty path; a device whose mount
    /// points are all empty yields no record ("not yet mounted").
    pub fn new(id: String, name: String, mounts: &Vec<String>) -> (r: Option<DeviceNameId>)
        ensures
            match r {
                Some(d) => {
                    &&& chosen_mount(mounts.deep_view()) == Some(d.path@)
                    &&& d.id@ == id@
                    &&& d.name@ == name@
                    &&& d@.wf()
                },
                None => chosen_mount(mounts.deep_view()) is None,
            },
    {
        match select_mount_path(mounts) {
            Some(path) => {
                proof {
                    lemma_chosen_mount_first(mounts.deep_view());
                }
                Some(DeviceNameId { id, name, path })
            },
            None => None,
        }
    }
}

/// One whole resolution attempt, decided from how far the three chained OS
/// lookups got: a failure to open the device is `DeviceUnavailable`, a
/// failed volume query is `VolumeLookupFailed`, and a completed enumeration
/// resolves to the first non-empty mount point, or to no record when the
/// volume is not yet mounted.
pub fn resolve_device(id: String, lookups: VolumeLookups) -> (r: Result<
    Option<DeviceNameId>,
    ResolveError,
>)
    ensures
        match lookups {
            VolumeLookups::OpenFailed(code) => r == Result::<
                Option<DeviceNameId>,
                ResolveError,
            >::Err(ResolveError::DeviceUnavailable(code)),
            VolumeLookups::CanonicalFailed { label, code } => r == Result::<
                Option<DeviceNameId>,
                ResolveError,
            >::Err(ResolveError::VolumeLookupFailed(code)),
            VolumeLookups::MountsFailed { label, code } => r == Result::<
                Option<DeviceNameId>,
                ResolveError,
            >::Err(ResolveError::VolumeLookupFailed(code)),
            VolumeLookups::Resolved { label, mounts } => match r {
                Ok(Some(d)) => {
                    &&& chosen_mount(mounts.deep_view()) == Some(d.path@)
                    &&& d.id@ == id@
                    &&& d.name@ == label@
                    &&& d@.wf()
                },
                Ok(None) => chosen_mount(mounts.deep_view()) is None,
                Err(_) => false,
            },
        },
{
    match lookups {
        VolumeLookups::OpenFailed(code) => Err(ResolveError::DeviceUnavailable(code)),
        VolumeLookups::CanonicalFailed { label: _, code } => Err(
            ResolveError::VolumeLookupFailed(code),
        ),
        VolumeLookups::MountsFailed { label: _, code } => Err(
            ResolveError::VolumeLookupFailed(code),
        ),
        VolumeLookups::Resolved { label, mounts } => Ok(DeviceNameId::new(id, label, &mounts)),
    }
}

} // verus!
