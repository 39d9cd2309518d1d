//! Payload side-channel bookkeeping: which port to offer, the share request
//! that announces it, and the running counts of a batch of files.
use vstd::prelude::*;
use crate::error::KdeConnectError;
use crate::packets::{Body, PacketPayloadTransferInfo, ShareRequest, ShareRequestFile, ShareRequestUpdate};

verus! {

/// First port of the payload window.
pub const PAYLOAD_PORT_FIRST: u16 = 60000;

/// Last port of the payload window.
pub const PAYLOAD_PORT_LAST: u16 = 64000;

/// What the scan offers after `failed` ports could not be bound: the next port
/// of the window in ascending order, or the failure once all 4001 were tried.
pub open spec fn scan_offer(failed: int) -> Result<u16, KdeConnectError> {
    if 0 <= failed && failed <= 4000 {
        Ok((60000 + failed) as u16)
    } else {
        Err(KdeConnectError::NoPayloadTransferPortFound)
    }
}

/// A sequential scan of the payload window for a port that can be bound.
pub struct PortScan {
    failed: u32,
}

impl PortScan {
    /// How many ports have been found taken so far.
    pub closed spec fn failed(&self) -> int {
        self.failed as int
    }

    pub closed spec fn wf(&self) -> bool {
        self.failed <= 4001
    }

    /// A scan that has tried nothing yet.
    pub fn new() -> (r: PortScan)
        ensures
            r.wf(),
            r.failed() == 0,
    {
        PortScan { failed: 0 }
    }

    /// The port to try binding now, or `NoPayloadTransferPortFound` once every
    /// port of the window was taken.
    pub fn current(&self) -> (r: Result<u16, KdeConnectError>)
        requires
            self.wf(),
        ensures
            r == scan_offer(self.failed()),
    {
        if self.failed <= (PAYLOAD_PORT_LAST - PAYLOAD_PORT_FIRST) as u32 {
            Ok(PAYLOAD_PORT_FIRST + self.failed as u16)
        } else {
            Err(KdeConnectError::NoPayloadTransferPortFound)
        }
    }

    /// The offered port could not be bound: move on to the next one.
    pub fn port_taken(&mut self)
        requires
            old(self).wf(),
            old(self).failed() <= 4000,
        ensures
            final(self).wf(),
            final(self).failed() == old(self).failed() + 1,
    {
        self.failed = self.failed + 1;
    }
}

/// The scan offers every port from 60000 to 64000 once, in order, and fails
/// with `NoPayloadTransferPortFound` exactly when all of them were taken.
pub proof fn lemma_scan_covers_window(failed: int)
    requires
        0 <= failed,
    ensures
        failed <= 4000 ==> (scan_offer(failed) matches Ok(p) && p == 60000 + failed && 60000 <= p
            <= 64000),
        failed > 4000 ==> scan_offer(failed) == Err::<u16, _>(
            KdeConnectError::NoPayloadTransferPortFound,
        ),
        forall|a: int, b: int|
            0 <= a < b <= 4000 ==> #[trigger] scan_offer(a) != #[trigger] scan_offer(b),
{
}

/// The file-share announcement for a payload offered on the scan's result; a
/// failed scan yields its error and no packet.
pub fn share_file_request(
    port: Result<u16, KdeConnectError>,
    filename: String,
    size: i64,
    creation_time: Option<u128>,
    last_modified: Option<u128>,
    open: bool,
    number_of_files: Option<i32>,
    total_payload_size: Option<i64>,
) -> (r: Result<(Body, i64, PacketPayloadTransferInfo), KdeConnectError>)
    ensures
        port matches Err(e) ==> r == Err::<(Body, i64, PacketPayloadTransferInfo), _>(e),
        port matches Ok(p) ==> r == Ok::<_, KdeConnectError>(
            (
                Body::ShareRequest(
                    ShareRequest::File(
                        ShareRequestFile {
                            filename,
                            creation_time,
                            last_modified,
                            open: Some(open),
                            number_of_files,
                            total_payload_size,
                        },
                    ),
                ),
                size,
                PacketPayloadTransferInfo { port: p },
            ),
        ),
{
    match port {
        Err(e) => Err(e),
        Ok(p) => Ok(
            (
                Body::ShareRequest(
                    ShareRequest::File(
                        ShareRequestFile {
                            filename,
                            creation_time,
                            last_modified,
                            open: Some(open),
                            number_of_files,
                            total_payload_size,
                        },
                    ),
                ),
                size,
                PacketPayloadTransferInfo { port: p },
            ),
        ),
    }
}

/// Sum of the sizes from index `i` on.
pub open spec fn suffix_sum(s: Seq<i64>, i: int) -> int
    decreases s.len() - i,
{
    if i < 0 || i >= s.len() {
        0
    } else {
        s[i] + suffix_sum(s, i + 1)
    }
}

pub open spec fn fits_i64(x: int) -> bool {
    i64::MIN <= x <= i64::MAX
}

/// A batch can be announced when its count fits an `i32` and every running
/// total fits an `i64`.
pub open spec fn batch_fits(s: Seq<i64>) -> bool {
    s.len() <= i32::MAX && forall|i: int| 0 <= i <= s.len() ==> fits_i64(#[trigger] suffix_sum(s, i))
}

/// The announcement of a batch of files with the given sizes, and for each file
/// the count of files and the total size still to come, itself included.
pub fn batch_plan(sizes: &Vec<i64>) -> (r: Option<(ShareRequestUpdate, Vec<(i32, i64)>)>)
    ensures
        r is Some <==> batch_fits(sizes@),
        r matches Some((update, plan)) ==> {
            &&& update.number_of_files == Some(sizes@.len() as i32)
            &&& update.total_payload_size == Some(suffix_sum(sizes@, 0) as i64)
            &&& plan@.len() == sizes@.len()
            &&& forall|i: int|
                0 <= i < sizes@.len() ==> (#[trigger] plan@[i]).0 == sizes@.len() - i
                    && plan@[i].1 == suffix_sum(sizes@, i)
        },
{
    let n = sizes.len();
    if n > 0x7fff_ffff {
        return None;
    }
    // running totals from the back: sums[k] is the total of the last k files
    let mut sums: Vec<i64> = Vec::new();
    sums.push(0);
    let mut k: usize = 0;
    while k < n
        invariant
            n == sizes@.len(),
            k <= n,
            sums@.len() == k + 1,
            forall|j: int| 0 <= j <= k ==> #[trigger] sums@[j] == suffix_sum(sizes@, n - j),
            forall|j: int| 0 <= j <= k ==> fits_i64(#[trigger] suffix_sum(sizes@, n - j)),
        decreases n - k,
    {
        let t: i128 = sums[k] as i128 + sizes[n - 1 - k] as i128;
        assert(t == suffix_sum(sizes@, n - (k + 1)));
        if t > 0x7fff_ffff_ffff_ffff || t < -0x8000_0000_0000_0000 {
            assert(!batch_fits(sizes@)) by {
                assert(!fits_i64(suffix_sum(sizes@, n - (k + 1))));
            }
            return None;
        }
        sums.push(t as i64);
        k = k + 1;
    }
    assert(batch_fits(sizes@)) by {
        assert forall|i: int| 0 <= i <= sizes@.len() implies fits_i64(
            #[trigger] suffix_sum(sizes@, i),
        ) by {
            assert(suffix_sum(sizes@, n - (n - i)) == suffix_sum(sizes@, i));
        }
    }
    let mut plan: Vec<(i32, i64)> = Vec::new();
    let mut i: usize = 0;
    while i < n
        invariant
            n == sizes@.len(),
            n <= i32::MAX,
            sums@.len() == n + 1,
            forall|j: int| 0 <= j <= n ==> #[trigger] sums@[j] == suffix_sum(sizes@, n - j),
            i <= n,
            plan@.len() == i,
            forall|j: int|
                0 <= j < i ==> (#[trigger] plan@[j]).0 == n - j && plan@[j].1 == suffix_sum(
                    sizes@,
                    j,
                ),
        decreases n - i,
    {
        assert(sums@[(n - i) as int] == suffix_sum(sizes@, i as int));
        plan.push(((n - i) as i32, sums[n - i]));
        i = i + 1;
    }
    let update = ShareRequestUpdate {
        number_of_files: Some(n as i32),
        total_payload_size: Some(sums[n]),
    };
    Some((update, plan))
}

} // verus!
