//! Pairing CSV records with their header, field by field.
use vstd::prelude::*;

verus! {

/// Each field of `record` with the header of its column; a record longer or
/// shorter than the header is cut to the shorter of the two.
pub fn pair_record(headers: &Vec<String>, record: &Vec<String>) -> (r: Vec<(String, String)>)
    ensures
        r@.len() == if headers@.len() <= record@.len() { headers@.len() } else { record@.len() },
        forall|i: int| 0 <= i < r@.len() ==> #[trigger] r@[i] == (headers@[i], record@[i]),
{
    let n: usize = if headers.len() <= record.len() { headers.len() } else { record.len() };
    let mut out: Vec<(String, String)> = Vec::with_capacity(n);
    let mut i: usize = 0;
    while i < n
        invariant
            0 <= i <= n,
            n <= headers@.len(),
            n <= record@.len(),
            out@.len() == i,
            forall|j: int| 0 <= j < i ==> #[trigger] out@[j] == (headers@[j], record@[j]),
        decreases n - i,
    {
        out.push((headers[i].clone(), record[i].clone()));
        i = i + 1;
    }
    out
}

/// Every record paired with the header, in order.
pub fn pair_records(headers: &Vec<String>, records: &Vec<Vec<String>>) -> (r: Vec<
    Vec<(String, String)>,
>)
    ensures
        r@.len() == records@.len(),
        forall|k: int|
            0 <= k < r@.len() ==> {
                &&& (#[trigger] r@[k])@.len() == if headers@.len() <= records@[k]@.len() {
                    headers@.len()
                } else {
                    records@[k]@.len()
                }
                &&& forall|i: int| 0 <= i < r@[k]@.len() ==> #[trigger] r@[k]@[i] == (headers@[i], records@[k]@[i])
            },
{
    let mut out: Vec<Vec<(String, String)>> = Vec::with_capacity(records.len());
    let mut k: usize = 0;
    while k < records.len()
        invariant
            0 <= k <= records@.len(),
            out@.len() == k,
            forall|m: int|
                0 <= m < k ==> {
                    &&& (#[trigger] out@[m])@.len() == if headers@.len() <= records@[m]@.len() {
                        headers@.len()
                    } else {
                        records@[m]@.len()
                    }
                    &&& forall|i: int| 0 <= i < out@[m]@.len() ==> #[trigger] out@[m]@[i] == (headers@[i], records@[m]@[i])
                },
        decreases records@.len() - k,
    {
        let row = pair_record(headers, &records[k]);
        out.push(row);
        k = k + 1;
    }
    out
}

} // verus!
