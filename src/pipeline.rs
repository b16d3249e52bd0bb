use vstd::prelude::*;

verus! {

/// Whether a pipeline producing `producer_outputs` channels may be followed
/// by one consuming `consumer_inputs`. Where it may not, concatenation fails
/// before the engine is called, so neither pipeline changes.
pub fn channels_chain(producer_outputs: usize, consumer_inputs: usize) -> (r: bool)
    ensures
        r == (producer_outputs == consumer_inputs),
{
    producer_outputs == consumer_inputs
}

/// Whether buffers of `input_len` and `output_len` values fit a pipeline or
/// stage of `input_channels` inputs and `output_channels` outputs exactly.
pub fn eval_buffers_fit(input_channels: usize, output_channels: usize, input_len: usize, output_len: usize) -> (r: bool)
    ensures
        r == (input_len == input_channels && output_len == output_channels),
{
    input_len == input_channels && output_len == output_channels
}

} // verus!
