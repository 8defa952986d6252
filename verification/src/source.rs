//! The decisions of the sample source: which track of a stream to decode,
//! what its sample rate is, and what to do with each thing that the demuxer
//! and the decoder report. The reading and decoding themselves are the
//! caller's business.

use crate::error::AnalysisError;
use vstd::prelude::*;

verus! {

/// What the analysis needs to know of one track of a stream.
#[derive(Debug, Clone, Copy, PartialEq, Eq, Structural)]
pub struct TrackInfo {
    /// The track's identifier within the stream.
    pub id: u32,
    /// Whether the track's codec is known, so that it can be decoded.
    pub decodable: bool,
    /// The track's sample rate, where the stream states it.
    pub sample_rate: Option<u32>,
}

/// The track at `k` is the first one that can be decoded.
pub open spec fn is_first_decodable(tracks: Seq<TrackInfo>, k: int) -> bool {
    &&& 0 <= k < tracks.len()
    &&& tracks[k].decodable
    &&& forall|j: int| 0 <= j < k ==> !(#[trigger] tracks[j]).decodable
}

/// The track at `k` is the first one with the identifier `id`.
pub open spec fn is_first_with_id(tracks: Seq<TrackInfo>, id: u32, k: int) -> bool {
    &&& 0 <= k < tracks.len()
    &&& tracks[k].id == id
    &&& forall|j: int| 0 <= j < k ==> (#[trigger] tracks[j]).id != id
}

/// Picks the track to analyse: the first one that can be decoded. Returns its
/// position in the track list, or nothing when the stream has no such track.
pub fn select_track(tracks: &[TrackInfo]) -> (selected: Option<usize>)
    ensures
        selected is None <==> (forall|k: int|
            0 <= k < tracks@.len() ==> !(#[trigger] tracks@[k]).decodable),
        selected matches Some(k) ==> is_first_decodable(tracks@, k as int),
{
    let mut i: usize = 0;
    while i < tracks.len()
        invariant
            0 <= i <= tracks@.len(),
            forall|j: int| 0 <= j < i ==> !(#[trigger] tracks@[j]).decodable,
        decreases tracks@.len() - i,
    {
        if tracks[i].decodable {
            return Some(i);
        }
        i += 1;
    }
    None
}

/// Looks up the sample rate of the track with the identifier `track_id`: that
/// of the first track so named. It is unavailable when there is no such track
/// or the stream does not state the track's rate.
pub fn track_sample_rate(tracks: &[TrackInfo], track_id: u32) -> (rate: Result<u32, AnalysisError>)
    ensures
        (forall|k: int| 0 <= k < tracks@.len() ==> (#[trigger] tracks@[k]).id != track_id) ==> rate
            == Err::<u32, AnalysisError>(AnalysisError::SampleRateUnavailable),
        forall|k: int| #[trigger]
            is_first_with_id(tracks@, track_id, k) ==> rate == (match tracks@[k].sample_rate {
                Some(r) => Ok::<u32, AnalysisError>(r),
                None => Err::<u32, AnalysisError>(AnalysisError::SampleRateUnavailable),
            }),
{
    let mut i: usize = 0;
    while i < tracks.len()
        invariant
            0 <= i <= tracks@.len(),
            forall|j: int| 0 <= j < i ==> (#[trigger] tracks@[j]).id != track_id,
        decreases tracks@.len() - i,
    {
        if tracks[i].id == track_id {
            assert forall|k: int| #[trigger] is_first_with_id(tracks@, track_id, k) implies k
                == i by {
                if k < i {
                    assert(tracks@[k].id != track_id);
                } else if i < k {
                    assert(tracks@[i as int].id == track_id);
                }
            }
            return match tracks[i].sample_rate {
                Some(r) => Ok(r),
                None => Err(AnalysisError::SampleRateUnavailable),
            };
        }
        i += 1;
    }
    Err(AnalysisError::SampleRateUnavailable)
}

/// What the demuxer reported when asked for the next packet.
#[derive(Debug, Clone, Copy, PartialEq, Eq, Structural)]
pub enum PacketOutcome {
    /// A packet of the track `track_id`.
    Packet { track_id: u32 },
    /// The stream's track list has changed and the decoders would have to be
    /// made anew.
    ResetRequired,
    /// Reading failed; `end_of_stream` tells whether it failed because the
    /// stream has no more data.
    IoError { end_of_stream: bool },
    /// Any other failure.
    Failure,
}

/// What to do after asking for a packet.
#[derive(Debug, Clone, Copy, PartialEq, Eq, Structural)]
pub enum PacketStep {
    /// Decode the packet.
    Decode,
    /// Pass over the packet and ask for the next.
    Skip,
    /// The stream has ended: there are no more samples.
    Stop,
}

/// The step that follows `outcome` when the track `selected` is analysed, or
/// the error that ends the analysis.
pub open spec fn packet_step(selected: u32, outcome: PacketOutcome) -> Result<
    PacketStep,
    AnalysisError,
> {
    match outcome {
        PacketOutcome::Packet { track_id } => if track_id == selected {
            Ok(PacketStep::Decode)
        } else {
            Ok(PacketStep::Skip)
        },
        PacketOutcome::ResetRequired => Ok(PacketStep::Stop),
        PacketOutcome::IoError { end_of_stream } => if end_of_stream {
            Ok(PacketStep::Stop)
        } else {
            Err(AnalysisError::DecodeError)
        },
        PacketOutcome::Failure => Err(AnalysisError::DecodeError),
    }
}

/// Decides what follows a request for the next packet. Packets of other
/// tracks are passed over. A changed track list and the end of the data both
/// end the stream cleanly. Every other failure is fatal.
pub fn on_packet(selected: u32, outcome: PacketOutcome) -> (step: Result<PacketStep, AnalysisError>)
    ensures
        step == packet_step(selected, outcome),
{
    match outcome {
        PacketOutcome::Packet { track_id } => if track_id == selected {
            Ok(PacketStep::Decode)
        } else {
            Ok(PacketStep::Skip)
        },
        PacketOutcome::ResetRequired => Ok(PacketStep::Stop),
        PacketOutcome::IoError { end_of_stream } => if end_of_stream {
            Ok(PacketStep::Stop)
        } else {
            Err(AnalysisError::DecodeError)
        },
        PacketOutcome::Failure => Err(AnalysisError::DecodeError),
    }
}

/// What the decoder reported for one packet.
#[derive(Debug, Clone, Copy, PartialEq, Eq, Structural)]
pub enum DecodeOutcome {
    /// Samples in 32-bit floating point, on `channels` channels.
    Samples { channels: usize },
    /// Samples in a format that the analysis does not read.
    OtherFormat,
    /// The packet could not be read.
    IoError,
    /// The packet holds invalid data.
    DecodeError,
    /// Any other failure.
    Failure,
}

/// What to do after decoding a packet.
#[derive(Debug, Clone, Copy, PartialEq, Eq, Structural)]
pub enum DecodeStep {
    /// Hand out the samples of the first two channels, pair by pair.
    Emit,
    /// Drop the packet and go on with the next.
    Skip,
}

/// The step that follows `outcome`, or the error that ends the analysis.
pub open spec fn decode_step(outcome: DecodeOutcome) -> Result<DecodeStep, AnalysisError> {
    match outcome {
        DecodeOutcome::Samples { channels } => if channels >= 2 {
            Ok(DecodeStep::Emit)
        } else {
            Err(AnalysisError::DecodeError)
        },
        DecodeOutcome::OtherFormat => Err(AnalysisError::DecodeError),
        DecodeOutcome::IoError => Ok(DecodeStep::Skip),
        DecodeOutcome::DecodeError => Ok(DecodeStep::Skip),
        DecodeOutcome::Failure => Err(AnalysisError::DecodeError),
    }
}

/// Decides what follows the decoding of a packet. A packet that cannot be
/// read or holds invalid data is dropped without a trace. Samples that do not
/// come as stereo pairs of 32-bit floats, and every other failure, are fatal.
pub fn on_decode(outcome: DecodeOutcome) -> (step: Result<DecodeStep, AnalysisError>)
    ensures
        step == decode_step(outcome),
{
    match outcome {
        DecodeOutcome::Samples { channels } => if channels >= 2 {
            Ok(DecodeStep::Emit)
        } else {
            Err(AnalysisError::DecodeError)
        },
        DecodeOutcome::OtherFormat => Err(AnalysisError::DecodeError),
        DecodeOutcome::IoError => Ok(DecodeStep::Skip),
        DecodeOutcome::DecodeError => Ok(DecodeStep::Skip),
        DecodeOutcome::Failure => Err(AnalysisError::DecodeError),
    }
}

} // verus!
