//! Looking for the operator's choice in a marker file on the local volumes.

use vstd::prelude::*;
use crate::config::{lookup_view, Choice, ChoiceLookupError, ChoiceView};
use crate::helpers::{choice_in, parse_choice_bytes};

verus! {

/// Path of the marker file on a volume.
pub const CHOICE_PATH: &'static str = "\\DECIDER.CHO";

/// What reading the marker file of one volume gave.
#[derive(Debug, Clone, PartialEq, Eq)]
pub enum MarkerRead {
    /// The file's bytes.
    Found(Vec<u8>),
    /// The volume has no such file.
    NotFound,
    /// The volume could not be opened, or the file could not be read.
    Failed,
}

/// A `MarkerRead` with its bytes as a sequence.
pub enum MarkerReadView {
    Found(Seq<u8>),
    NotFound,
    Failed,
}

impl View for MarkerRead {
    type V = MarkerReadView;

    open spec fn view(&self) -> MarkerReadView {
        match self {
            MarkerRead::Found(bytes) => MarkerReadView::Found(bytes@),
            MarkerRead::NotFound => MarkerReadView::NotFound,
            MarkerRead::Failed => MarkerReadView::Failed,
        }
    }
}

impl DeepView for MarkerRead {
    type V = MarkerReadView;

    open spec fn deep_view(&self) -> MarkerReadView {
        self@
    }
}

/// The search through the volumes, one marker file at a time.
///
/// While `pending` names a volume, the caller reads the marker file of that
/// volume and hands what it got to `handle`.
#[derive(Debug, PartialEq, Eq)]
pub enum MarkerScan {
    /// The marker file of `volume` is wanted; there are `volumes` volumes,
    /// and `boot_volume` is the one that this program was loaded from.
    Reading { volume: usize, volumes: usize, boot_volume: Option<usize> },
    /// The search is over.
    Finished(Result<Choice, ChoiceLookupError>),
}

/// A `MarkerScan` as plain values.
pub enum MarkerScanView {
    Reading { volume: usize, volumes: usize, boot_volume: Option<usize> },
    Finished(Result<ChoiceView, ChoiceLookupError>),
}

impl View for MarkerScan {
    type V = MarkerScanView;

    open spec fn view(&self) -> MarkerScanView {
        match self {
            MarkerScan::Reading { volume, volumes, boot_volume } => MarkerScanView::Reading {
                volume: *volume,
                volumes: *volumes,
                boot_volume: *boot_volume,
            },
            MarkerScan::Finished(r) => MarkerScanView::Finished(lookup_view(*r)),
        }
    }
}

/// The search when the volumes before `from` gave nothing: it goes on with
/// the first volume from there on that is not the boot volume, and ends with
/// `NotFound` where there is none.
pub open spec fn scan_from(from: int, volumes: usize, boot_volume: Option<usize>) -> MarkerScanView {
    let volume = if boot_volume == Some(from as usize) {
        from + 1
    } else {
        from
    };
    if 0 <= volume < volumes {
        MarkerScanView::Reading { volume: volume as usize, volumes, boot_volume }
    } else {
        MarkerScanView::Finished(Err(ChoiceLookupError::NotFound))
    }
}

/// One step of the search. The first file that is read ends it, whatever
/// the file says; a volume without the file, or one that fails, is passed over.
pub open spec fn marker_step(state: MarkerScanView, read: MarkerReadView) -> MarkerScanView {
    match state {
        MarkerScanView::Finished(_) => state,
        MarkerScanView::Reading { volume, volumes, boot_volume } => match read {
            MarkerReadView::Found(bytes) => MarkerScanView::Finished(choice_in(bytes)),
            MarkerReadView::NotFound | MarkerReadView::Failed => scan_from(
                volume + 1,
                volumes,
                boot_volume,
            ),
        },
    }
}

/// The first volume from `from` on that is not the boot volume and whose
/// marker file was read.
pub open spec fn first_marker(reads: Seq<MarkerReadView>, boot_volume: Option<usize>, from: int) -> Option<
    int,
>
    decreases reads.len() - from,
{
    if from < 0 || from >= reads.len() {
        None
    } else if reads[from] is Found && boot_volume != Some(from as usize) {
        Some(from)
    } else {
        first_marker(reads, boot_volume, from + 1)
    }
}

/// The choice that the volumes hold, given what reading each would give.
pub open spec fn fs_choice(reads: Seq<MarkerReadView>, boot_volume: Option<usize>) -> Result<
    ChoiceView,
    ChoiceLookupError,
> {
    match first_marker(reads, boot_volume, 0) {
        Some(volume) => choice_in(reads[volume]->Found_0),
        None => Err(ChoiceLookupError::NotFound),
    }
}

proof fn lemma_scan_from(reads: Seq<MarkerReadView>, boot_volume: Option<usize>, from: int)
    requires
        0 <= from <= reads.len() <= usize::MAX,
    ensures
        match scan_from(from, reads.len() as usize, boot_volume) {
            MarkerScanView::Reading { volume, volumes, boot_volume: b } => from <= volume
                < reads.len() && volumes == reads.len() && b == boot_volume && boot_volume != Some(
                volume,
            ) && first_marker(reads, boot_volume, from) == first_marker(
                reads,
                boot_volume,
                volume as int,
            ),
            MarkerScanView::Finished(r) => r == Err::<ChoiceView, ChoiceLookupError>(
                ChoiceLookupError::NotFound,
            ) && first_marker(reads, boot_volume, from) is None,
        },
{
    if boot_volume == Some(from as usize) && from < reads.len() {
        assert(first_marker(reads, boot_volume, from) == first_marker(
            reads,
            boot_volume,
            from + 1,
        ));
    }
}

fn scan_at(from: usize, volumes: usize, boot_volume: Option<usize>) -> (scan: MarkerScan)
    ensures
        scan@ == scan_from(from as int, volumes, boot_volume),
{
    let is_boot = match boot_volume {
        Some(b) => b == from,
        None => false,
    };
    if !is_boot {
        if from < volumes {
            MarkerScan::Reading { volume: from, volumes, boot_volume }
        } else {
            MarkerScan::Finished(Err(ChoiceLookupError::NotFound))
        }
    } else if from < volumes && from + 1 < volumes {
        MarkerScan::Reading { volume: from + 1, volumes, boot_volume }
    } else {
        MarkerScan::Finished(Err(ChoiceLookupError::NotFound))
    }
}

impl MarkerScan {
    /// A search through `volumes` volumes, in their order, that leaves out
    /// `boot_volume`.
    pub fn new(volumes: usize, boot_volume: Option<usize>) -> (scan: MarkerScan)
        ensures
            scan@ == scan_from(0, volumes, boot_volume),
    {
        scan_at(0, volumes, boot_volume)
    }

    /// The volume whose marker file is wanted, or `None` once the search is over.
    pub fn pending(&self) -> (volume: Option<usize>)
        ensures
            volume == match self@ {
                MarkerScanView::Reading { volume, .. } => Some(volume),
                MarkerScanView::Finished(_) => None,
            },
    {
        match self {
            MarkerScan::Reading { volume, .. } => Some(*volume),
            MarkerScan::Finished(_) => None,
        }
    }

    /// Takes in what reading the pending volume's marker file gave.
    pub fn handle(self, read: &MarkerRead) -> (next: MarkerScan)
        ensures
            next@ == marker_step(self@, read@),
    {
        match self {
            MarkerScan::Finished(r) => MarkerScan::Finished(r),
            MarkerScan::Reading { volume, volumes, boot_volume } => match read {
                MarkerRead::Found(bytes) => MarkerScan::Finished(parse_choice_bytes(bytes)),
                MarkerRead::NotFound | MarkerRead::Failed => {
                    if volume < volumes {
                        scan_at(volume + 1, volumes, boot_volume)
                    } else {
                        MarkerScan::Finished(Err(ChoiceLookupError::NotFound))
                    }
                },
            },
        }
    }

    /// The result of the search, once it is over.
    pub fn outcome(self) -> (r: Option<Result<Choice, ChoiceLookupError>>)
        ensures
            match self@ {
                MarkerScanView::Reading { .. } => r is None,
                MarkerScanView::Finished(result) => r is Some && lookup_view(r->0) == result,
            },
    {
        match self {
            MarkerScan::Reading { .. } => None,
            MarkerScan::Finished(r) => Some(r),
        }
    }
}

/// The choice on the local volumes, given what reading the marker file of
/// each volume gives, in the order of the volumes: what the first file says
/// that could be read on a volume other than the boot volume, and `NotFound`
/// where there is no such file.
pub fn find_fs_choice(reads: &Vec<MarkerRead>, boot_volume: Option<usize>) -> (r: Result<
    Choice,
    ChoiceLookupError,
>)
    ensures
        lookup_view(r) == fs_choice(reads.deep_view(), boot_volume),
{
    let mut scan = MarkerScan::new(reads.len(), boot_volume);
    proof {
        lemma_scan_from(reads.deep_view(), boot_volume, 0);
    }
    loop
        invariant
            match scan@ {
                MarkerScanView::Reading { volume, volumes, boot_volume: b } => volume < volumes
                    && volumes == reads.len() && b == boot_volume && boot_volume != Some(volume)
                    && first_marker(reads.deep_view(), boot_volume, 0) == first_marker(
                    reads.deep_view(),
                    boot_volume,
                    volume as int,
                ),
                MarkerScanView::Finished(r) => r == fs_choice(reads.deep_view(), boot_volume),
            },
        ensures
            scan@ is Finished,
        decreases
                match scan@ {
                    MarkerScanView::Reading { volume, volumes, .. } => volumes - volume + 1,
                    MarkerScanView::Finished(_) => 0,
                },
    {
        match scan.pending() {
            None => {
                break ;
            },
            Some(volume) => {
                proof {
                    assert(reads.deep_view()[volume as int] == reads@[volume as int]@);
                    lemma_scan_from(reads.deep_view(), boot_volume, volume + 1);
                }
                scan = scan.handle(&reads[volume]);
            },
        }
    }
    match scan {
        MarkerScan::Finished(r) => r,
        MarkerScan::Reading { .. } => Err(ChoiceLookupError::NotFound),
    }
}

} // verus!
