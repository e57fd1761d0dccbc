//! The fixed-schema record in which terrain metrics leave the core.
use vstd::prelude::*;
use vstd::string::StringExecFns;

verus! {

/// The record for four already formatted fields, in their fixed order.
pub open spec fn metrics_record_text(
    sinuosity: Seq<char>,
    ratio: Seq<char>,
    drainage: Seq<char>,
    latency: Seq<char>,
) -> Seq<char> {
    "{\"sinuosity_index\":"@ + sinuosity + ",\"straight_to_turn_ratio\":"@ + ratio
        + ",\"hydro_drainage_pct\":"@ + drainage + ",\"latency_ms\":"@ + latency + "}"@
}

/// Lays out the metrics record: a JSON object with the sinuosity index, the
/// straight-to-turn ratio, the drainage percentage and the latency, each
/// field holding the text it is given.
pub fn metrics_record(sinuosity: &str, ratio: &str, drainage: &str, latency: &str) -> (r: String)
    ensures
        r@ == metrics_record_text(sinuosity@, ratio@, drainage@, latency@),
{
    let mut out = String::from_str("{\"sinuosity_index\":");
    out.append(sinuosity);
    out.append(",\"straight_to_turn_ratio\":");
    out.append(ratio);
    out.append(",\"hydro_drainage_pct\":");
    out.append(drainage);
    out.append(",\"latency_ms\":");
    out.append(latency);
    out.append("}");
    out
}

} // verus!
