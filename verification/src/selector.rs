//! The rule that picks the address to publish.

use crate::throughput::Throughput;
use vstd::prelude::*;

verus! {

/// The address to publish: the fallback where the measured speed is below the
/// threshold, the measured address otherwise.
pub open spec fn selected(
    measured_ip: Seq<char>,
    throughput: Throughput,
    threshold: Throughput,
    fallback_ip: Seq<char>,
) -> Seq<char> {
    if throughput.below(threshold) {
        fallback_ip
    } else {
        measured_ip
    }
}

/// Picks the address to publish for one measurement.
pub fn select(
    measured_ip: &str,
    throughput: Throughput,
    threshold: Throughput,
    fallback_ip: &str,
) -> (chosen: String)
    ensures
        chosen@ == selected(measured_ip@, throughput, threshold, fallback_ip@),
        throughput.below(threshold) ==> chosen@ == fallback_ip@,
        !throughput.below(threshold) ==> chosen@ == measured_ip@,
{
    if throughput.is_below(threshold) {
        fallback_ip.to_owned()
    } else {
        measured_ip.to_owned()
    }
}

} // verus!
