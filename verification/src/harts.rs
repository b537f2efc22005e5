//! Hart enumeration from the boot device tree.
//!
//! The boot loader leaves a flattened device-tree blob in memory: a
//! big-endian header (magic number, then total size) followed by the
//! tree structure. The platform copies the blob's bytes out of raw
//! memory; here the header is checked, the tree is handed to the
//! device-tree parser, and the processing cores are counted as the sum
//! of cores in each cluster under the fixed core-map node. A missing
//! or malformed blob falls back to the compiled default hart count.

use vstd::prelude::*;

verus! {

/// Magic number at the head of a device-tree blob, stored big-endian.
pub const DTB_MAGIC: u64 = 0xD00D_FEED;

/// The tree path under which each child is a cluster of cores.
pub const CPU_MAP_PATH: &'static str = "/cpus/cpu-map";

/// The big-endian 32-bit value spelled by four bytes.
pub open spec fn be32(bs: Seq<u8>, off: int) -> int {
    bs[off] * 0x100_0000 + bs[off + 1] * 0x1_0000 + bs[off + 2] * 0x100 + bs[off + 3]
}

/// Read the big-endian 32-bit value at `off`.
pub fn read_be32(bytes: &Vec<u8>, off: usize) -> (r: u64)
    requires
        off + 4 <= bytes@.len(),
    ensures
        r == be32(bytes@, off as int),
        r < 0x1_0000_0000,
{
    let n: usize = bytes.len();
    proof {
        assert(off + 4 <= n);
    }
    (bytes[off] as u64) * 0x100_0000 + (bytes[off + 1] as u64) * 0x1_0000
        + (bytes[off + 2] as u64) * 0x100 + (bytes[off + 3] as u64)
}

/// A blob starts with a well-formed header: both header words present
/// and the magic number in place.
pub open spec fn dtb_header_ok(bs: Seq<u8>) -> bool {
    bs.len() >= 8 && be32(bs, 0) == DTB_MAGIC
}

/// Check the header magic of a device-tree blob.
pub fn check_dtb_header(bytes: &Vec<u8>) -> (r: bool)
    ensures
        r == dtb_header_ok(bytes@),
{
    if bytes.len() < 8 {
        false
    } else {
        read_be32(bytes, 0) == DTB_MAGIC
    }
}

/// The total blob size the header advertises; the platform reads that
/// many bytes starting at the blob's address.
pub fn dtb_total_size(bytes: &Vec<u8>) -> (r: u64)
    requires
        bytes@.len() >= 8,
    ensures
        r == be32(bytes@, 4),
{
    read_be32(bytes, 4)
}

/// What the device-tree parser yields for a blob: for the node at
/// `path`, the child count of each of that node's children in order —
/// `None` when the blob does not parse or holds no such node. The
/// parse reads nothing but the bytes and the path.
pub uninterp spec fn dtb_cluster_counts(bs: Seq<u8>, path: Seq<char>) -> Option<Seq<usize>>;

/// Relies on device_tree::DeviceTree::load and DeviceTree::find: loads
/// the blob, looks up the node at `path`, and maps each of its
/// children (the clusters) to how many children of its own (the cores)
/// it has; a parse failure or a missing node folds into `None`.
#[verifier::external_body]
fn dt_cluster_counts(data: &Vec<u8>, path: &str) -> (r: Option<Vec<usize>>)
    ensures
        (r matches Some(v) ==> dtb_cluster_counts(data@, path@) == Some(v@)),
        (r is None ==> dtb_cluster_counts(data@, path@) is None),
{
    let dt = device_tree::DeviceTree::load(data.as_slice()).ok()?;
    let node = dt.find(path)?;
    Some(node.children.iter().map(|c| c.children.len()).collect())
}

/// `a + b`, stopping at the top of the `usize` range.
pub open spec fn sat_add(a: int, b: int) -> int {
    if a + b > usize::MAX { usize::MAX as int } else { a + b }
}

/// The saturating sum of a sequence of counts.
pub open spec fn cluster_sum(counts: Seq<usize>) -> int
    decreases counts.len(),
{
    if counts.len() == 0 { 0 } else { sat_add(cluster_sum(counts.drop_last()), counts.last() as int) }
}

/// Sum the per-cluster core counts, saturating at the top of the
/// `usize` range.
pub fn cluster_core_total(counts: &Vec<usize>) -> (r: usize)
    ensures
        r == cluster_sum(counts@),
{
    let mut tot: usize = 0;
    let mut i: usize = 0;
    proof {
        assert(counts@.subrange(0, 0) =~= Seq::<usize>::empty());
    }
    while i < counts.len()
        invariant
            i <= counts@.len(),
            tot == cluster_sum(counts@.subrange(0, i as int)),
        decreases counts@.len() - i,
    {
        let c: usize = counts[i];
        proof {
            assert(counts@.subrange(0, i + 1).drop_last() =~= counts@.subrange(0, i as int));
            assert(counts@.subrange(0, i + 1).last() == counts@[i as int]);
        }
        if tot <= usize::MAX - c {
            tot = tot + c;
        } else {
            tot = usize::MAX;
        }
        i = i + 1;
    }
    proof {
        assert(counts@.subrange(0, counts@.len() as int) =~= counts@);
    }
    tot
}

/// Count the processing cores a device-tree blob advertises: the sum,
/// saturating at the top of the `usize` range, over every cluster
/// under the core-map node of that cluster's core count. A blob whose
/// header magic is wrong falls back to `fallback`, as does one the
/// parser rejects or one without a core-map node.
pub fn count_harts_in_dtb(data: &Vec<u8>, fallback: usize) -> (r: usize)
    ensures
        !dtb_header_ok(data@) ==> r == fallback,
        dtb_header_ok(data@) ==> (match dtb_cluster_counts(data@, CPU_MAP_PATH@) {
            Option::Some(s) => r == cluster_sum(s),
            Option::None => r == fallback,
        }),
{
    if !check_dtb_header(data) {
        return fallback;
    }
    match dt_cluster_counts(data, CPU_MAP_PATH) {
        Option::Some(counts) => cluster_core_total(&counts),
        Option::None => fallback,
    }
}

} // verus!
