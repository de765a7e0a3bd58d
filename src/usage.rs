use vstd::prelude::*;

use crate::ratio::Ratio;

verus! {

/// Why the free-space ratio of a monitored path could not be determined.
#[derive(Clone, Copy, Debug, PartialEq, Eq, Structural)]
pub enum ReadError {
    /// The operating system could not list the mounted filesystems.
    Unavailable,
    /// No filesystem is mounted on the monitored path.
    MountNotFound,
    /// The filesystem reports a total size of zero.
    NoCapacity,
    /// The filesystem reports more available space than its total size.
    InconsistentSizes,
}

/// The sizes that one mounted filesystem reports, in bytes.
#[derive(Clone, Debug)]
pub struct MountUsage {
    /// The path that the filesystem is mounted on.
    pub mounted_on: String,
    /// Bytes available to an unprivileged user.
    pub avail: u64,
    /// Total bytes in the filesystem.
    pub total: u64,
}

/// The first mount in `mounts` that is mounted on `path`, if any.
pub open spec fn find_mount(mounts: Seq<MountUsage>, path: Seq<char>) -> Option<MountUsage>
    decreases mounts.len(),
{
    if mounts.len() == 0 {
        None
    } else if mounts[0].mounted_on@ == path {
        Some(mounts[0])
    } else {
        find_mount(mounts.drop_first(), path)
    }
}

/// The free-space ratio that a mount's sizes give, or why they give none.
pub open spec fn mount_ratio(m: MountUsage) -> Result<Ratio, ReadError> {
    if m.total == 0 {
        Err(ReadError::NoCapacity)
    } else if m.avail > m.total {
        Err(ReadError::InconsistentSizes)
    } else {
        Ok(Ratio { part: m.avail, whole: m.total })
    }
}

/// The free-space ratio of the filesystem mounted on `path`, among `mounts`.
pub open spec fn usage_of(mounts: Seq<MountUsage>, path: Seq<char>) -> Result<Ratio, ReadError> {
    match find_mount(mounts, path) {
        None => Err(ReadError::MountNotFound),
        Some(m) => mount_ratio(m),
    }
}

/// Finds the filesystem mounted on `path` among `mounts` (the first one, if
/// several are) and returns the fraction of its space that is available.
pub fn disk_usage(mounts: &Vec<MountUsage>, path: &String) -> (r: Result<Ratio, ReadError>)
    ensures
        r == usage_of(mounts@, path@),
        r matches Ok(ratio) ==> ratio.wf(),
{
    let n = mounts.len();
    let mut i: usize = 0;
    assert(mounts@.subrange(0, n as int) =~= mounts@);
    while i < n
        invariant
            n == mounts@.len(),
            0 <= i <= n,
            find_mount(mounts@, path@) == find_mount(mounts@.subrange(i as int, n as int), path@),
        decreases n - i,
    {
        let m = &mounts[i];
        proof {
            let rest = mounts@.subrange(i as int, n as int);
            assert(rest[0] == mounts@[i as int]);
            assert(rest.drop_first() =~= mounts@.subrange(i + 1, n as int));
        }
        if m.mounted_on == *path {
            if m.total == 0 {
                return Err(ReadError::NoCapacity);
            }
            if m.avail > m.total {
                return Err(ReadError::InconsistentSizes);
            }
            return Ok(Ratio { part: m.avail, whole: m.total });
        }
        i = i + 1;
    }
    proof {
        assert(mounts@.subrange(n as int, n as int).len() == 0);
    }
    Err(ReadError::MountNotFound)
}

} // verus!
