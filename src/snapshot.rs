use vstd::prelude::*;

use crate::error::{DecodeError, FetchError, TransportError};
use crate::model::{model_of, ID};
use crate::serialize::{
    decode_scaled, empty_information, information_of, initialization_of, length_error, Information,
    InformationView, Initialization, InitializationView, Scaled, IDENTITY_BLOCK_LEN,
    TELEMETRY_BLOCK_LEN,
};
use crate::Words;

verus! {

/// The last identity and telemetry snapshots fetched from a device.
///
/// Each fetch hands in what its register reads returned. A fetch either succeeds
/// and replaces its snapshots whole, or fails and leaves both as they were.
#[derive(Clone, Debug, PartialEq, Eq)]
pub struct Snapshot {
    pub init: Initialization,
    pub info: Information,
}

/// What a `Snapshot` holds.
pub struct SnapshotView {
    pub init: InitializationView,
    pub info: InformationView,
}

impl View for Snapshot {
    type V = SnapshotView;

    open spec fn view(&self) -> SnapshotView {
        SnapshotView { init: self.init@, info: self.info@ }
    }
}

/// The words that a register read returned, or `None` where it failed.
pub open spec fn read_words(read: Result<Words, TransportError>) -> Option<Seq<u16>> {
    match read {
        Ok(w) => Some(w@),
        Err(_) => None,
    }
}

/// The snapshot after an identity fetch whose read gave `read`.
pub open spec fn after_init(s: SnapshotView, read: Option<Seq<u16>>) -> SnapshotView {
    match read {
        Some(w) => if w.len() == IDENTITY_BLOCK_LEN {
            SnapshotView { init: initialization_of(w), info: s.info }
        } else {
            s
        },
        None => s,
    }
}

/// The snapshot after a telemetry fetch whose read gave `read`.
pub open spec fn after_info(s: SnapshotView, read: Option<Seq<u16>>) -> SnapshotView {
    match read {
        Some(w) => if w.len() == TELEMETRY_BLOCK_LEN {
            SnapshotView { init: s.init, info: information_of(s.init, w) }
        } else {
            s
        },
        None => s,
    }
}

/// The snapshot after a combined fetch whose two reads gave `init_read` and `info_read`.
pub open spec fn after_all(
    s: SnapshotView,
    init_read: Option<Seq<u16>>,
    info_read: Option<Seq<u16>>,
) -> SnapshotView {
    match (init_read, info_read) {
        (Some(wi), Some(wt)) => if wi.len() == IDENTITY_BLOCK_LEN && wt.len()
            == TELEMETRY_BLOCK_LEN {
            let init = initialization_of(wi);
            SnapshotView { init, info: information_of(init, wt) }
        } else {
            s
        },
        _ => s,
    }
}

/// What a fetch of a block of `expected` words reports, given what its read returned.
pub open spec fn block_outcome(read: Result<Words, TransportError>, expected: usize) -> Result<
    (),
    FetchError,
> {
    match read {
        Err(e) => Err(FetchError::Transport(e)),
        Ok(w) => if w@.len() == expected {
            Ok(())
        } else {
            Err(FetchError::Decode(length_error(expected, w@.len() as usize)))
        },
    }
}

/// What a combined fetch reports: the identity block's failure first, then the telemetry block's.
pub open spec fn all_outcome(
    init_read: Result<Words, TransportError>,
    info_read: Result<Words, TransportError>,
) -> Result<(), FetchError> {
    match block_outcome(init_read, IDENTITY_BLOCK_LEN) {
        Err(e) => Err(e),
        Ok(_) => block_outcome(info_read, TELEMETRY_BLOCK_LEN),
    }
}

impl Snapshot {
    /// The snapshots of a device from which nothing was read yet.
    pub fn new() -> (r: Snapshot)
        ensures
            r@.init == (InitializationView { id: 0, sn: Seq::empty(), fw: 0 }),
            r@.info == empty_information(),
    {
        Snapshot { init: Initialization::default(), info: Information::default() }
    }

    /// Applies the identity read of `fetch_init`.
    pub fn fetch_init(&mut self, read: Result<Words, TransportError>) -> (r: Result<(), FetchError>)
        ensures
            final(self)@ == after_init(old(self)@, read_words(read)),
            r == block_outcome(read, IDENTITY_BLOCK_LEN),
    {
        match read {
            Err(e) => Err(FetchError::Transport(e)),
            Ok(words) => match Initialization::decode(words.as_slice()) {
                Err(e) => Err(FetchError::Decode(e)),
                Ok(init) => {
                    self.init = init;
                    Ok(())
                },
            },
        }
    }

    /// Applies the telemetry read of `fetch_info`, scaled for the cached identity.
    pub fn fetch_info(&mut self, read: Result<Words, TransportError>) -> (r: Result<(), FetchError>)
        ensures
            final(self)@ == after_info(old(self)@, read_words(read)),
            r == block_outcome(read, TELEMETRY_BLOCK_LEN),
    {
        match read {
            Err(e) => Err(FetchError::Transport(e)),
            Ok(words) => match Information::decode(&self.init, words.as_slice()) {
                Err(e) => Err(FetchError::Decode(e)),
                Ok(info) => {
                    self.info = info;
                    Ok(())
                },
            },
        }
    }

    /// Applies the two reads of `fetch_all`: both snapshots are replaced, or neither.
    pub fn fetch_all(
        &mut self,
        init_read: Result<Words, TransportError>,
        info_read: Result<Words, TransportError>,
    ) -> (r: Result<(), FetchError>)
        ensures
            final(self)@ == after_all(old(self)@, read_words(init_read), read_words(info_read)),
            r == all_outcome(init_read, info_read),
    {
        let init_words = match init_read {
            Err(e) => return Err(FetchError::Transport(e)),
            Ok(words) => words,
        };
        let init = match Initialization::decode(init_words.as_slice()) {
            Err(e) => return Err(FetchError::Decode(e)),
            Ok(init) => init,
        };
        let info_words = match info_read {
            Err(e) => return Err(FetchError::Transport(e)),
            Ok(words) => words,
        };
        let info = match Information::decode(&init, info_words.as_slice()) {
            Err(e) => return Err(FetchError::Decode(e)),
            Ok(info) => info,
        };
        self.init = init;
        self.info = info;
        Ok(())
    }

    /// The model of the cached identity.
    pub fn model(&self) -> (r: ID)
        ensures
            r == model_of(self.init.id),
    {
        ID::from_identity(self.init.id)
    }

    /// Scales a raw voltage word by the cached telemetry snapshot's voltage divisor.
    pub fn scale_voltage(&self, raw: u16) -> (r: Result<Scaled, DecodeError>)
        ensures
            self.info.v_mul == 0 ==> r == Err::<Scaled, DecodeError>(DecodeError::ZeroMultiplier),
            self.info.v_mul != 0 ==> r == Ok::<Scaled, DecodeError>(
                Scaled { raw, mul: self.info.v_mul },
            ),
    {
        decode_scaled(raw, self.info.v_mul)
    }

    /// Scales a raw current word by the cached telemetry snapshot's current divisor.
    pub fn scale_current(&self, raw: u16) -> (r: Result<Scaled, DecodeError>)
        ensures
            self.info.i_mul == 0 ==> r == Err::<Scaled, DecodeError>(DecodeError::ZeroMultiplier),
            self.info.i_mul != 0 ==> r == Ok::<Scaled, DecodeError>(
                Scaled { raw, mul: self.info.i_mul },
            ),
    {
        decode_scaled(raw, self.info.i_mul)
    }
}

/// A fetch whose register read failed, identity, telemetry or combined, leaves the
/// snapshots exactly as they were.
pub proof fn lemma_failed_read_keeps_snapshot(s: SnapshotView, other: Option<Seq<u16>>)
    ensures
        after_init(s, None) == s,
        after_info(s, None) == s,
        after_all(s, None, other) == s,
        after_all(s, other, None) == s,
{
}

/// An identity fetch followed at once by a telemetry fetch leaves the same snapshots
/// as one combined fetch of the same two register blocks.
pub proof fn lemma_init_then_info_is_all(s: SnapshotView, init_words: Seq<u16>, info_words: Seq<u16>)
    requires
        init_words.len() == IDENTITY_BLOCK_LEN,
        info_words.len() == TELEMETRY_BLOCK_LEN,
    ensures
        after_info(after_init(s, Some(init_words)), Some(info_words)) == after_all(
            s,
            Some(init_words),
            Some(info_words),
        ),
{
}

} // verus!
