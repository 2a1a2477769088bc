use vstd::prelude::*;
use crate::error::HdrError;
use crate::raster::{Raster, RasterView, CHANNEL_MAX};

verus! {

/// Fewest images a merge accepts.
pub const MIN_BATCH: usize = 2;

/// Most images a merge accepts.
pub const MAX_BATCH: usize = 5;

/// Whether `n` images form an acceptable merge batch.
pub open spec fn batch_size_ok(n: int) -> bool {
    MIN_BATCH <= n <= MAX_BATCH
}

/// Whether every raster has the width and height of the first.
pub open spec fn same_dims(rs: Seq<RasterView>) -> bool {
    forall|i: int|
        0 <= i < rs.len() ==> (#[trigger] rs[i]).width == rs[0].width && rs[i].height == rs[0].height
}

/// Sum of channel `k` over the first `n` rasters.
pub open spec fn channel_sum(rs: Seq<RasterView>, n: int, k: int) -> int
    decreases n,
{
    if n <= 0 {
        0
    } else {
        channel_sum(rs, n - 1, k) + rs[n - 1].data[k] as int
    }
}

/// The merged raster: each channel is the truncated mean of that channel
/// over all inputs.
pub open spec fn mean_raster(rs: Seq<RasterView>) -> RasterView {
    RasterView {
        width: rs[0].width,
        height: rs[0].height,
        data: Seq::new(
            rs[0].data.len(),
            |k: int| (channel_sum(rs, rs.len() as int, k) / (rs.len() as int)) as u16,
        ),
    }
}

/// What merging `rs` yields: the batch size is checked first, then the
/// dimensions, then the mean is taken.
pub open spec fn merge_outcome(rs: Seq<RasterView>) -> Result<RasterView, HdrError> {
    if !batch_size_ok(rs.len() as int) {
        Err(HdrError::InvalidArgument)
    } else if !same_dims(rs) {
        Err(HdrError::DimensionMismatch)
    } else {
        Ok(mean_raster(rs))
    }
}

/// The views of a sequence of rasters.
pub open spec fn views(rs: Seq<Raster>) -> Seq<RasterView> {
    rs.map_values(|r: Raster| r@)
}

proof fn lemma_channel_sum_bound(rs: Seq<RasterView>, n: int, k: int)
    requires
        0 <= n <= rs.len(),
    ensures
        0 <= channel_sum(rs, n, k) <= n * (CHANNEL_MAX as int),
    decreases n,
{
    if n > 0 {
        lemma_channel_sum_bound(rs, n - 1, k);
    }
}

/// Merging two well-formed rasters of equal dimensions succeeds, and each
/// channel of the result is the floor of the mean of the two inputs'.
pub proof fn lemma_merge_two(a: RasterView, b: RasterView)
    requires
        a.wf(),
        b.wf(),
        a.width == b.width,
        a.height == b.height,
    ensures
        merge_outcome(seq![a, b]) matches Ok(m) && m.width == a.width && m.height == a.height
            && m.data.len() == a.data.len() && forall|k: int|
            0 <= k < m.data.len() ==> #[trigger] m.data[k] as int == (a.data[k] as int + b.data[k] as int)
                / 2,
{
    let rs = seq![a, b];
    assert(same_dims(rs));
    let m = mean_raster(rs);
    assert forall|k: int| 0 <= k < m.data.len() implies #[trigger] m.data[k] as int == (a.data[k] as int
        + b.data[k] as int) / 2 by {
        assert(channel_sum(rs, 2, k) == a.data[k] as int + b.data[k] as int) by {
            assert(channel_sum(rs, 0, k) == 0);
            assert(rs[0] == a && rs[1] == b);
            assert(channel_sum(rs, 1, k) == a.data[k] as int);
        }
    }
}

/// Merging well-formed rasters of equal dimensions, two to five of them,
/// succeeds, and each channel of the result is the floor of the sum of that
/// channel over the inputs divided by their number.
pub proof fn lemma_merge_mean(rs: Seq<RasterView>)
    requires
        batch_size_ok(rs.len() as int),
        forall|i: int| 0 <= i < rs.len() ==> (#[trigger] rs[i]).wf(),
        same_dims(rs),
    ensures
        merge_outcome(rs) matches Ok(m) && m.wf() && m.width == rs[0].width && m.height == rs[0].height
            && forall|k: int|
            0 <= k < m.data.len() ==> #[trigger] m.data[k] as int == channel_sum(rs, rs.len() as int, k)
                / (rs.len() as int),
{
    let m = mean_raster(rs);
    assert(rs[0].wf());
    assert forall|k: int| 0 <= k < m.data.len() implies #[trigger] m.data[k] as int == channel_sum(
        rs,
        rs.len() as int,
        k,
    ) / (rs.len() as int) by {
        lemma_channel_sum_bound(rs, rs.len() as int, k);
        let n = rs.len() as int;
        let s = channel_sum(rs, n, k);
        assert(0 <= s / n <= CHANNEL_MAX) by (nonlinear_arith)
            requires
                0 <= s <= n * (CHANNEL_MAX as int),
                n >= 2,
        ;
    }
}

/// Merging two rasters that differ in width or height fails with
/// `DimensionMismatch`, whatever their channels hold.
pub proof fn lemma_merge_mismatch(a: RasterView, b: RasterView)
    requires
        a.width != b.width || a.height != b.height,
    ensures
        merge_outcome(seq![a, b]) == Err::<RasterView, HdrError>(HdrError::DimensionMismatch),
{
    let rs = seq![a, b];
    assert(rs[1] == b);
    assert(!same_dims(rs));
}

/// Fails with `InvalidArgument` unless `n` lies in the accepted batch range.
pub fn check_batch_size(n: usize) -> (r: Result<(), HdrError>)
    ensures
        r is Ok <==> batch_size_ok(n as int),
        r is Err ==> r == Err::<(), HdrError>(HdrError::InvalidArgument),
{
    if n < MIN_BATCH || n > MAX_BATCH {
        Err(HdrError::InvalidArgument)
    } else {
        Ok(())
    }
}

/// Merges rasters of equal dimensions into their per-channel truncated mean.
pub fn merge_rasters(rasters: &Vec<Raster>) -> (r: Result<Raster, HdrError>)
    requires
        forall|i: int| 0 <= i < rasters@.len() ==> #[trigger] rasters@[i].wf(),
    ensures
        r matches Ok(m) ==> m.wf() && merge_outcome(views(rasters@)) == Ok::<RasterView, HdrError>(m@),
        r matches Err(e) ==> merge_outcome(views(rasters@)) == Err::<RasterView, HdrError>(e),
{
    let ghost rs = views(rasters@);
    let n = rasters.len();
    if let Err(e) = check_batch_size(n) {
        return Err(e);
    }
    assert(rs[0] == rasters@[0]@);
    let width = rasters[0].width;
    let height = rasters[0].height;
    let mut i: usize = 0;
    while i < n
        invariant
            n == rasters@.len(),
            batch_size_ok(n as int),
            rs == views(rasters@),
            width == rs[0].width,
            height == rs[0].height,
            0 <= i <= n,
            forall|j: int| 0 <= j < i ==> (#[trigger] rs[j]).width == width && rs[j].height == height,
        decreases n - i,
    {
        assert(rs[i as int] == rasters@[i as int]@);
        if rasters[i].width != width || rasters[i].height != height {
            assert(!same_dims(rs)) by {
                assert(rs[i as int].width != rs[0].width || rs[i as int].height != rs[0].height);
            }
            return Err(HdrError::DimensionMismatch);
        }
        i += 1;
    }
    assert(same_dims(rs));
    assert(rs[0] == rasters@[0]@ && rasters@[0].wf());
    let len = rasters[0].data.len();
    let count = n as u64;
    let mut out: Vec<u16> = Vec::with_capacity(len);
    let mut k: usize = 0;
    while k < len
        invariant
            n == rasters@.len(),
            batch_size_ok(n as int),
            count == n,
            rs == views(rasters@),
            same_dims(rs),
            forall|j: int| 0 <= j < n ==> #[trigger] rasters@[j].wf(),
            len == rs[0].data.len(),
            0 <= k <= len,
            out@.len() == k,
            forall|j: int| 0 <= j < k ==> #[trigger] out@[j] == mean_raster(rs).data[j],
        decreases len - k,
    {
        let mut sum: u64 = 0;
        let mut i: usize = 0;
        while i < n
            invariant
                n == rasters@.len(),
                n <= MAX_BATCH,
                rs == views(rasters@),
                same_dims(rs),
                forall|j: int| 0 <= j < n ==> #[trigger] rasters@[j].wf(),
                len == rs[0].data.len(),
                k < len,
                0 <= i <= n,
                sum == channel_sum(rs, i as int, k as int),
            decreases n - i,
        {
            proof {
                lemma_channel_sum_bound(rs, i as int, k as int);
                assert(rasters@[i as int].wf());
                assert(rs[i as int] == rasters@[i as int]@);
                assert(rs[0] == rasters@[0]@ && rasters@[0].wf());
                assert(rs[i as int].width == rs[0].width && rs[i as int].height == rs[0].height);
            }
            sum = sum + rasters[i].data[k] as u64;
            i += 1;
        }
        proof {
            lemma_channel_sum_bound(rs, n as int, k as int);
        }
        let mean = sum / count;
        assert(mean <= CHANNEL_MAX) by (nonlinear_arith)
            requires
                mean == sum / count,
                sum <= count * (CHANNEL_MAX as int),
                count >= 2,
        ;
        out.push(mean as u16);
        k += 1;
    }
    let merged = Raster { width, height, data: out };
    assert(merged@.data =~= mean_raster(rs).data);
    Ok(merged)
}

} // verus!
