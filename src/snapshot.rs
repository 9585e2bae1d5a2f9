//! One round of remote queries and the snapshot assembled from it.

use crate::codec::{base64_hex_text, base64_to_hex};
use crate::timefmt::{genesis_time, genesis_time_text};
use vstd::prelude::*;

verus! {

/// The six point queries that one round sends to the node.
#[derive(Clone, Copy, Debug, PartialEq, Eq, Structural)]
pub enum Query {
    HighestActivation,
    GenesisTime,
    CurrentLayer,
    CurrentEpoch,
    EpochLayerCount,
    LayerDuration,
}

/// The node's method name for each query.
pub open spec fn method_name(q: Query) -> Seq<char> {
    match q {
        Query::HighestActivation => "spacemesh.v1.ActivationService.Highest"@,
        Query::GenesisTime => "spacemesh.v1.MeshService.GenesisTime"@,
        Query::CurrentLayer => "spacemesh.v1.MeshService.CurrentLayer"@,
        Query::CurrentEpoch => "spacemesh.v1.MeshService.CurrentEpoch"@,
        Query::EpochLayerCount => "spacemesh.v1.MeshService.EpochNumLayers"@,
        Query::LayerDuration => "spacemesh.v1.MeshService.LayerDuration"@,
    }
}

impl Query {
    /// The node's method name for this query.
    pub fn method(&self) -> (r: &'static str)
        ensures
            r@ == method_name(*self),
    {
        proof {
            reveal_strlit("spacemesh.v1.ActivationService.Highest");
            reveal_strlit("spacemesh.v1.MeshService.GenesisTime");
            reveal_strlit("spacemesh.v1.MeshService.CurrentLayer");
            reveal_strlit("spacemesh.v1.MeshService.CurrentEpoch");
            reveal_strlit("spacemesh.v1.MeshService.EpochNumLayers");
            reveal_strlit("spacemesh.v1.MeshService.LayerDuration");
        }
        match self {
            Query::HighestActivation => "spacemesh.v1.ActivationService.Highest",
            Query::GenesisTime => "spacemesh.v1.MeshService.GenesisTime",
            Query::CurrentLayer => "spacemesh.v1.MeshService.CurrentLayer",
            Query::CurrentEpoch => "spacemesh.v1.MeshService.CurrentEpoch",
            Query::EpochLayerCount => "spacemesh.v1.MeshService.EpochNumLayers",
            Query::LayerDuration => "spacemesh.v1.MeshService.LayerDuration",
        }
    }
}

/// Why a remote value could not be had.
#[derive(Clone, Copy, Debug, PartialEq, Eq, Structural)]
pub enum FetchError {
    /// The call to the node did not complete (process or network failure, timeout).
    Transport(Query),
    /// The node answered, but not in the expected shape or encoding.
    Decode(Query),
}

/// The highest activation as the node reports it; ids are base64 text.
#[derive(Clone, Debug, PartialEq, Eq)]
pub struct ActivationInfo {
    pub id: String,
    pub layer: u32,
    pub coinbase: String,
    pub previous_id: String,
}

/// What each of the six queries of one round returned.
pub struct RoundResults {
    pub highest_activation: Result<ActivationInfo, FetchError>,
    pub genesis_time: Result<String, FetchError>,
    pub current_layer: Result<u64, FetchError>,
    pub current_epoch: Result<u64, FetchError>,
    pub epoch_num_layers: Result<u64, FetchError>,
    pub layer_duration: Result<String, FetchError>,
    /// Local clock reading, in milliseconds, when the round began.
    pub started_at: u64,
}

/// The live chain values served to readers, all from one round.
#[derive(Debug, PartialEq, Eq)]
pub struct Snapshot {
    pub highest_activation_id: String,
    pub previous_activation_id: String,
    pub genesis_timestamp: String,
    pub genesis_time: String,
    pub current_layer: u64,
    pub current_epoch: u64,
    pub epoch_num_layers: u64,
    pub layer_duration: String,
    fetched_at: u64,
}

/// Mathematical content of a [`Snapshot`].
pub struct SnapshotView {
    pub highest_activation_id: Seq<char>,
    pub previous_activation_id: Seq<char>,
    pub genesis_timestamp: Seq<char>,
    pub genesis_time: Seq<char>,
    pub current_layer: u64,
    pub current_epoch: u64,
    pub epoch_num_layers: u64,
    pub layer_duration: Seq<char>,
    pub fetched_at: u64,
}

impl View for Snapshot {
    type V = SnapshotView;

    closed spec fn view(&self) -> SnapshotView {
        SnapshotView {
            highest_activation_id: self.highest_activation_id@,
            previous_activation_id: self.previous_activation_id@,
            genesis_timestamp: self.genesis_timestamp@,
            genesis_time: self.genesis_time@,
            current_layer: self.current_layer,
            current_epoch: self.current_epoch,
            epoch_num_layers: self.epoch_num_layers,
            layer_duration: self.layer_duration@,
            fetched_at: self.fetched_at,
        }
    }
}

impl Snapshot {
    /// Local clock reading, in milliseconds, when the round that produced
    /// this snapshot began.
    pub fn fetched_at(&self) -> (r: u64)
        ensures
            r == self@.fetched_at,
    {
        self.fetched_at
    }

    /// A copy of this snapshot.
    pub fn duplicate(&self) -> (r: Snapshot)
        ensures
            r@ == self@,
    {
        Snapshot {
            highest_activation_id: self.highest_activation_id.clone(),
            previous_activation_id: self.previous_activation_id.clone(),
            genesis_timestamp: self.genesis_timestamp.clone(),
            genesis_time: self.genesis_time.clone(),
            current_layer: self.current_layer,
            current_epoch: self.current_epoch,
            epoch_num_layers: self.epoch_num_layers,
            layer_duration: self.layer_duration.clone(),
            fetched_at: self.fetched_at,
        }
    }
}

/// True when one of the six queries of `r` failed.
pub open spec fn round_has_failure(r: RoundResults) -> bool {
    ||| r.highest_activation is Err
    ||| r.genesis_time is Err
    ||| r.current_layer is Err
    ||| r.current_epoch is Err
    ||| r.epoch_num_layers is Err
    ||| r.layer_duration is Err
}

/// The snapshot that a round yields, or the first error in query order: the
/// six results, then the two ids and the genesis time that are derived.
pub open spec fn assembled(r: RoundResults) -> Result<SnapshotView, FetchError> {
    if r.highest_activation is Err {
        Err(r.highest_activation->Err_0)
    } else if r.genesis_time is Err {
        Err(r.genesis_time->Err_0)
    } else if r.current_layer is Err {
        Err(r.current_layer->Err_0)
    } else if r.current_epoch is Err {
        Err(r.current_epoch->Err_0)
    } else if r.epoch_num_layers is Err {
        Err(r.epoch_num_layers->Err_0)
    } else if r.layer_duration is Err {
        Err(r.layer_duration->Err_0)
    } else {
        let a = r.highest_activation->Ok_0;
        let ts = r.genesis_time->Ok_0;
        if base64_hex_text(a.id@) is None || base64_hex_text(a.previous_id@) is None {
            Err(FetchError::Decode(Query::HighestActivation))
        } else if genesis_time_text(ts@) is None {
            Err(FetchError::Decode(Query::GenesisTime))
        } else {
            Ok(
                SnapshotView {
                    highest_activation_id: base64_hex_text(a.id@)->Some_0,
                    previous_activation_id: base64_hex_text(a.previous_id@)->Some_0,
                    genesis_timestamp: ts@,
                    genesis_time: genesis_time_text(ts@)->Some_0,
                    current_layer: r.current_layer->Ok_0,
                    current_epoch: r.current_epoch->Ok_0,
                    epoch_num_layers: r.epoch_num_layers->Ok_0,
                    layer_duration: r.layer_duration->Ok_0@,
                    fetched_at: r.started_at,
                },
            )
        }
    }
}

/// The view of an assembly outcome.
pub open spec fn outcome_view(o: Result<Snapshot, FetchError>) -> Result<SnapshotView, FetchError> {
    match o {
        Ok(s) => Ok(s@),
        Err(e) => Err(e),
    }
}

/// Builds one snapshot from the results of one round. It succeeds only when
/// all six queries succeeded and the derived fields decode; any failure
/// voids the whole round.
pub fn assemble_snapshot(r: RoundResults) -> (out: Result<Snapshot, FetchError>)
    ensures
        outcome_view(out) == assembled(r),
        round_has_failure(r) ==> out is Err,
{
    let ghost g = r;
    let a = match r.highest_activation {
        Ok(a) => a,
        Err(e) => { return Err(e); },
    };
    let ts = match r.genesis_time {
        Ok(t) => t,
        Err(e) => { return Err(e); },
    };
    let layer = match r.current_layer {
        Ok(v) => v,
        Err(e) => { return Err(e); },
    };
    let epoch = match r.current_epoch {
        Ok(v) => v,
        Err(e) => { return Err(e); },
    };
    let num_layers = match r.epoch_num_layers {
        Ok(v) => v,
        Err(e) => { return Err(e); },
    };
    let duration = match r.layer_duration {
        Ok(d) => d,
        Err(e) => { return Err(e); },
    };
    let id = base64_to_hex(a.id.as_str());
    let prev = base64_to_hex(a.previous_id.as_str());
    let (id, prev) = match (id, prev) {
        (Some(i), Some(p)) => (i, p),
        _ => { return Err(FetchError::Decode(Query::HighestActivation)); },
    };
    let time = match genesis_time(ts.as_str()) {
        Some(t) => t,
        None => { return Err(FetchError::Decode(Query::GenesisTime)); },
    };
    let s = Snapshot {
        highest_activation_id: id,
        previous_activation_id: prev,
        genesis_timestamp: ts,
        genesis_time: time,
        current_layer: layer,
        current_epoch: epoch,
        epoch_num_layers: num_layers,
        layer_duration: duration,
        fetched_at: r.started_at,
    };
    assert(g == r);
    Ok(s)
}

} // verus!
