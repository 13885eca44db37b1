//! The rows of the GPU listing.
use vstd::prelude::*;
use crate::decimal::{decimal_text, with_number};

verus! {

/// What the listing shows of one installed GPU.
#[derive(Debug, Clone, PartialEq, Eq)]
pub struct GpuSummary {
    pub name: String,
    pub vendor: String,
    pub device_id: u32,
}

/// One row of the listing: the GPU's label, its name, its vendor and its
/// device id.
#[derive(Debug, Clone, PartialEq, Eq)]
pub struct ListRow {
    pub label: String,
    pub name: String,
    pub vendor: String,
    pub device_id: u32,
}

/// The label of the GPU of index `i`: `GPU #` followed by the index.
pub open spec fn gpu_label(i: nat) -> Seq<char> {
    "GPU #"@ + decimal_text(i)
}

/// The column titles of the listing.
pub fn list_titles() -> (r: Vec<String>)
    ensures
        r.len() == 4,
        r[0]@ == "GPU Index"@,
        r[1]@ == "Name"@,
        r[2]@ == "Vendor"@,
        r[3]@ == "Device ID"@,
{
    let mut r: Vec<String> = Vec::new();
    r.push("GPU Index".to_owned());
    r.push("Name".to_owned());
    r.push("Vendor".to_owned());
    r.push("Device ID".to_owned());
    r
}

/// The listing of the installed GPUs `gpus`, one row each, in order, the GPU
/// at index `i` labelled with `i`.
pub fn list_rows(gpus: &Vec<GpuSummary>) -> (r: Vec<ListRow>)
    ensures
        r.len() == gpus.len(),
        forall|i: int|
            0 <= i < r.len() ==> {
                &&& (#[trigger] r[i]).label@ == gpu_label(i as nat)
                &&& r[i].name@ == gpus[i].name@
                &&& r[i].vendor@ == gpus[i].vendor@
                &&& r[i].device_id == gpus[i].device_id
            },
{
    let mut rows: Vec<ListRow> = Vec::new();
    let mut i: usize = 0;
    while i < gpus.len()
        invariant
            i <= gpus.len(),
            rows.len() == i,
            forall|k: int|
                0 <= k < i ==> {
                    &&& (#[trigger] rows[k]).label@ == gpu_label(k as nat)
                    &&& rows[k].name@ == gpus[k].name@
                    &&& rows[k].vendor@ == gpus[k].vendor@
                    &&& rows[k].device_id == gpus[k].device_id
                },
        decreases gpus.len() - i,
    {
        let gpu = &gpus[i];
        rows.push(
            ListRow {
                label: with_number("GPU #", i),
                name: gpu.name.clone(),
                vendor: gpu.vendor.clone(),
                device_id: gpu.device_id,
            },
        );
        i = i + 1;
    }
    rows
}

} // verus!
