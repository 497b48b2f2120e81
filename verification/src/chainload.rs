//! Handing control to another loader: where it lies and on which device.

use vstd::prelude::*;
use vstd::string::StringExecFns;
use crate::helpers::{normalize_uefi_path, normalized};
use crate::text::{chars_of, find_char, first_index, string_of, trim, trim_range};

verus! {

/// Why a loader was not started.
#[derive(Debug, Clone, Copy, PartialEq, Eq, Structural)]
pub enum ChainloadError {
    /// The device that this program was loaded from is not known.
    Unsupported,
    /// No volume lies on the partition that was asked for.
    NotFound,
    /// The target is malformed, or the image was not loaded or not started.
    LoadError,
    /// The firmware ran out of resources.
    OutOfResources,
}

/// The value of a hexadecimal digit, or -1 for any other character.
pub open spec fn hex_value(c: char) -> int {
    let u = c as u32;
    if 0x30 <= u <= 0x39 {
        u - 0x30
    } else if 0x61 <= u <= 0x66 {
        u - 0x61 + 10
    } else if 0x41 <= u <= 0x46 {
        u - 0x41 + 10
    } else {
        -1
    }
}

/// A GUID in text: `xxxxxxxx-xxxx-xxxx-xxxx-xxxxxxxxxxxx`, each `x` a
/// hexadecimal digit of either case.
pub open spec fn is_guid_text(s: Seq<char>) -> bool {
    &&& s.len() == 36
    &&& forall|i: int|
        0 <= i < 36 ==> if i == 8 || i == 13 || i == 18 || i == 23 {
            s[i] == '-'
        } else {
            hex_value(#[trigger] s[i]) >= 0
        }
}

/// The byte that the two hexadecimal digits at `i` and `i + 1` denote.
pub open spec fn hex_byte(s: Seq<char>, i: int) -> u8 {
    (hex_value(s[i]) * 16 + hex_value(s[i + 1])) as u8
}

/// The sixteen bytes of a GUID in text. The first three groups are stored
/// low byte first, the last two in the order of the text.
pub open spec fn guid_bytes(s: Seq<char>) -> Seq<u8> {
    seq![
        hex_byte(s, 6),
        hex_byte(s, 4),
        hex_byte(s, 2),
        hex_byte(s, 0),
        hex_byte(s, 11),
        hex_byte(s, 9),
        hex_byte(s, 16),
        hex_byte(s, 14),
        hex_byte(s, 19),
        hex_byte(s, 21),
        hex_byte(s, 24),
        hex_byte(s, 26),
        hex_byte(s, 28),
        hex_byte(s, 30),
        hex_byte(s, 32),
        hex_byte(s, 34),
    ]
}

/// `uefi::Guid::try_parse`, followed by `Guid::to_bytes`: a text in the GUID
/// format gives its sixteen bytes, any other text is refused.
#[verifier::external_body]
fn parse_guid(text: &str) -> (r: Option<[u8; 16]>)
    ensures
        match r {
            Some(bytes) => is_guid_text(text@) && bytes@ == guid_bytes(text@),
            None => !is_guid_text(text@),
        },
{
    match uefi::Guid::try_parse(text) {
        Ok(guid) => Some(guid.to_bytes()),
        Err(_) => None,
    }
}

/// Whether a text can be written in UCS-2 with a closing NUL: every
/// character lies in the basic plane and none is NUL.
pub open spec fn fits_ucs2(s: Seq<char>) -> bool {
    forall|i: int| 0 <= i < s.len() ==> 0 < (#[trigger] s[i]) as u32 <= 0xFFFF
}

/// `uefi::CString16::try_from(&str)`, for its verdict alone: it succeeds
/// unless a character lies outside the basic plane or is NUL.
#[verifier::external_body]
fn encodes_as_ucs2(text: &str) -> (ok: bool)
    ensures
        ok == fits_ucs2(text@),
{
    uefi::CString16::try_from(text).is_ok()
}

/// Which device a loader is taken from, where it is not the boot device.
#[derive(Debug, Clone, Copy, PartialEq, Eq)]
pub enum ChainloadDeviceSelector {
    /// The volume on the GPT partition with this GUID.
    PartitionGuid([u8; 16]),
}

/// The file path of a target: trimmed, with `\` for `/`, and with a leading
/// `\` added where there is none. An empty path names no file.
pub open spec fn chainload_file_path(path: Seq<char>) -> Option<Seq<char>> {
    let p = normalized(trim(path));
    if p.len() == 0 {
        None
    } else if p[0] == '\\' {
        Some(p)
    } else {
        Some(seq!['\\'] + p)
    }
}

/// A target in text: `<guid>:<path>` for a file on the partition with that
/// GUID, or `<path>` for a file on the boot device. What stands before the
/// first `:` must be a GUID.
pub open spec fn chainload_target(text: Seq<char>) -> Option<(Option<Seq<u8>>, Seq<char>)> {
    let colon = first_index(text, ':');
    if 0 <= colon < text.len() {
        let prefix = trim(text.take(colon));
        match chainload_file_path(text.skip(colon + 1)) {
            Some(file_path) => if is_guid_text(prefix) {
                Some((Some(guid_bytes(prefix)), file_path))
            } else {
                None
            },
            None => None,
        }
    } else {
        match chainload_file_path(text) {
            Some(file_path) => Some((None, file_path)),
            None => None,
        }
    }
}

/// A selector as plain values: the bytes of its GUID.
pub open spec fn selector_view(selector: Option<ChainloadDeviceSelector>) -> Option<Seq<u8>> {
    match selector {
        Some(ChainloadDeviceSelector::PartitionGuid(bytes)) => Some(bytes@),
        None => None,
    }
}

/// Reads a device selector: a GUID, with white space around it ignored.
pub fn parse_chainload_selector(prefix: &str) -> (r: Result<ChainloadDeviceSelector, ChainloadError>)
    ensures
        match r {
            Ok(selector) => is_guid_text(trim(prefix@)) && selector_view(Some(selector)) == Some(
                guid_bytes(trim(prefix@)),
            ),
            Err(e) => e == ChainloadError::LoadError && !is_guid_text(trim(prefix@)),
        },
{
    let v = chars_of(prefix);
    assert(v@.subrange(0, v.len() as int) =~= v@);
    let (lo, hi) = trim_range(&v, 0, v.len());
    let trimmed = string_of(&v, lo, hi);
    match parse_guid(trimmed.as_str()) {
        Some(bytes) => Ok(ChainloadDeviceSelector::PartitionGuid(bytes)),
        None => Err(ChainloadError::LoadError),
    }
}

/// Makes the file path of a target: trimmed, normalized and absolute.
pub fn normalize_chainload_file_path(path: &str) -> (r: Result<String, ChainloadError>)
    ensures
        match r {
            Ok(file_path) => chainload_file_path(path@) == Some(file_path@),
            Err(e) => e == ChainloadError::LoadError && chainload_file_path(path@) is None,
        },
{
    let v = chars_of(path);
    assert(v@.subrange(0, v.len() as int) =~= v@);
    let (lo, hi) = trim_range(&v, 0, v.len());
    if lo == hi {
        return Err(ChainloadError::LoadError);
    }
    let trimmed = string_of(&v, lo, hi);
    let normal = normalize_uefi_path(trimmed.as_str());
    if v[lo] == '\\' || v[lo] == '/' {
        Ok(normal)
    } else {
        let mut file_path = String::new();
        file_path.push('\\');
        file_path.append(normal.as_str());
        assert(file_path@ =~= seq!['\\'] + normal@);
        Ok(file_path)
    }
}

/// Reads a target: an optional device selector and a file path.
pub fn parse_chainload_target(path: &str) -> (r: Result<
    (Option<ChainloadDeviceSelector>, String),
    ChainloadError,
>)
    ensures
        match r {
            Ok((selector, file_path)) => chainload_target(path@) == Some(
                (selector_view(selector), file_path@),
            ),
            Err(e) => e == ChainloadError::LoadError && chainload_target(path@) is None,
        },
{
    let v = chars_of(path);
    assert(v@.subrange(0, v.len() as int) =~= v@);
    let colon = find_char(&v, 0, v.len(), ':');
    if colon < v.len() {
        let prefix = string_of(&v, 0, colon);
        let rest = string_of(&v, colon + 1, v.len());
        proof {
            assert(prefix@ =~= path@.take(colon as int));
            assert(rest@ =~= path@.skip(colon + 1));
        }
        let selector = match parse_chainload_selector(prefix.as_str()) {
            Ok(selector) => selector,
            Err(e) => {
                return Err(e);
            },
        };
        match normalize_chainload_file_path(rest.as_str()) {
            Ok(file_path) => Ok((Some(selector), file_path)),
            Err(e) => Err(e),
        }
    } else {
        match normalize_chainload_file_path(path) {
            Ok(file_path) => Ok((None, file_path)),
            Err(e) => Err(e),
        }
    }
}

/// How the disk of a hard-drive node is partitioned.
#[derive(Debug, Clone, Copy, PartialEq, Eq, Structural)]
pub enum PartitionFormat {
    /// Master Boot Record.
    Mbr,
    /// GUID Partition Table.
    Gpt,
    /// Any other format.
    Other,
}

/// What identifies the partition of a hard-drive node.
#[derive(Debug, Clone, Copy, PartialEq, Eq)]
pub enum PartitionSignature {
    /// Nothing.
    Absent,
    /// A 32-bit MBR signature.
    Mbr([u8; 4]),
    /// A GUID, by its sixteen bytes.
    Guid([u8; 16]),
    /// A signature of an unknown kind.
    Unknown,
}

/// One node of a device path, as far as the search for a partition reads it.
#[derive(Debug, Clone, Copy, PartialEq, Eq)]
pub enum PathNode {
    /// A hard-drive media node.
    HardDrive { partition_format: PartitionFormat, partition_signature: PartitionSignature },
    /// Any other node.
    Other,
}

/// The GUID of the partition that a device path leads to. The first
/// hard-drive node decides: it gives its GUID where its format is GPT and its
/// signature is a GUID, and nothing otherwise.
pub open spec fn partition_guid(nodes: Seq<PathNode>) -> Option<Seq<u8>>
    decreases nodes.len(),
{
    if nodes.len() == 0 {
        None
    } else {
        match nodes[0] {
            PathNode::HardDrive { partition_format, partition_signature } => match (
                partition_format,
                partition_signature,
            ) {
                (PartitionFormat::Gpt, PartitionSignature::Guid(bytes)) => Some(bytes@),
                _ => None,
            },
            PathNode::Other => partition_guid(nodes.drop_first()),
        }
    }
}

/// Whether a node is a hard-drive node of format GPT whose signature is
/// this GUID.
pub open spec fn is_gpt_partition(node: PathNode, guid: Seq<u8>) -> bool {
    match node {
        PathNode::HardDrive { partition_format, partition_signature } => partition_format
            == PartitionFormat::Gpt && match partition_signature {
            PartitionSignature::Guid(bytes) => bytes@ == guid,
            _ => false,
        },
        PathNode::Other => false,
    }
}

/// A device path leads to the partition with a given GUID only where its
/// first hard-drive node has the format GPT and that GUID as its signature.
/// Where the format of that node is not GPT, or its signature is another
/// GUID or no GUID at all, the path leads to no such partition.
pub proof fn lemma_partition_guid_is_gpt(nodes: Seq<PathNode>, guid: Seq<u8>)
    ensures
        partition_guid(nodes) == Some(guid) <==> exists|i: int|
            0 <= i < nodes.len() && (forall|j: int| 0 <= j < i ==> nodes[j] is Other)
                && is_gpt_partition(#[trigger] nodes[i], guid),
    decreases nodes.len(),
{
    if nodes.len() > 0 {
        match nodes[0] {
            PathNode::HardDrive { .. } => {
                if partition_guid(nodes) != Some(guid) {
                    assert forall|i: int|
                        0 <= i < nodes.len() && (forall|j: int|
                            0 <= j < i ==> nodes[j] is Other) implies !is_gpt_partition(
                        #[trigger] nodes[i],
                        guid,
                    ) by {
                        if i > 0 {
                            assert(nodes[0] is Other);
                        }
                    }
                } else {
                    assert(is_gpt_partition(nodes[0], guid));
                }
            },
            PathNode::Other => {
                let rest = nodes.drop_first();
                lemma_partition_guid_is_gpt(rest, guid);
                if partition_guid(rest) == Some(guid) {
                    let i = choose|i: int|
                        0 <= i < rest.len() && (forall|j: int| 0 <= j < i ==> rest[j] is Other)
                            && is_gpt_partition(#[trigger] rest[i], guid);
                    assert(nodes[i + 1] == rest[i]);
                    assert forall|j: int| 0 <= j < i + 1 implies nodes[j] is Other by {
                        if j > 0 {
                            assert(nodes[j] == rest[j - 1]);
                        }
                    }
                    assert(is_gpt_partition(nodes[i + 1], guid));
                } else {
                    assert forall|i: int|
                        0 <= i < nodes.len() && (forall|j: int|
                            0 <= j < i ==> nodes[j] is Other) implies !is_gpt_partition(
                        #[trigger] nodes[i],
                        guid,
                    ) by {
                        if i > 0 {
                            assert(rest[i - 1] == nodes[i]);
                            assert forall|j: int| 0 <= j < i - 1 implies rest[j] is Other by {
                                assert(rest[j] == nodes[j + 1]);
                            }
                        }
                    }
                }
            },
        }
    }
}

/// The GUID of the partition that a device path leads to.
pub fn extract_partition_guid(nodes: &Vec<PathNode>) -> (r: Option<[u8; 16]>)
    ensures
        match r {
            Some(bytes) => partition_guid(nodes@) == Some(bytes@),
            None => partition_guid(nodes@) is None,
        },
{
    let mut i: usize = 0;
    proof {
        assert(nodes@.skip(0) =~= nodes@);
    }
    while i < nodes.len()
        invariant
            i <= nodes.len(),
            partition_guid(nodes@) == partition_guid(nodes@.skip(i as int)),
        decreases nodes.len() - i,
    {
        proof {
            assert(nodes@.skip(i as int).drop_first() =~= nodes@.skip(i + 1));
        }
        match nodes[i] {
            PathNode::HardDrive { partition_format, partition_signature } => {
                return match (partition_format, partition_signature) {
                    (PartitionFormat::Gpt, PartitionSignature::Guid(bytes)) => Some(bytes),
                    _ => None,
                };
            },
            PathNode::Other => {},
        }
        i += 1;
    }
    None
}

/// Whether two GUIDs have the same bytes.
pub fn same_guid(a: &[u8; 16], b: &[u8; 16]) -> (same: bool)
    ensures
        same == (a@ == b@),
{
    let mut i: usize = 0;
    while i < 16
        invariant
            i <= 16,
            forall|k: int| 0 <= k < i ==> a@[k] == b@[k],
        decreases 16 - i,
    {
        if a[i] != b[i] {
            return false;
        }
        i += 1;
    }
    assert(a@ =~= b@);
    true
}

/// Whether a device path leads to the partition with this GUID.
pub fn leads_to_partition(nodes: &Vec<PathNode>, guid: &[u8; 16]) -> (found: bool)
    ensures
        found == (partition_guid(nodes@) == Some(guid@)),
{
    match extract_partition_guid(nodes) {
        Some(bytes) => same_guid(&bytes, guid),
        None => false,
    }
}

/// Whether a volume lies on the partition with this GUID, given the nodes
/// of its device path, or `None` where that path could not be opened.
pub open spec fn volume_matches(path: Option<Vec<PathNode>>, guid: Seq<u8>) -> bool {
    match path {
        Some(nodes) => partition_guid(nodes@) == Some(guid),
        None => false,
    }
}

/// The first volume from `from` on that lies on the partition with this GUID.
pub open spec fn first_match(paths: Seq<Option<Vec<PathNode>>>, guid: Seq<u8>, from: int) -> Option<
    int,
>
    decreases paths.len() - from,
{
    if from < 0 || from >= paths.len() {
        None
    } else if volume_matches(paths[from], guid) {
        Some(from)
    } else {
        first_match(paths, guid, from + 1)
    }
}

/// The volume that lies on the partition with this GUID, given the device
/// paths of the volumes in their order: the first one whose path leads to a
/// GPT partition with that GUID, and `NotFound` where there is none.
pub fn resolve_guid_device_handle(paths: &Vec<Option<Vec<PathNode>>>, guid: &[u8; 16]) -> (r:
    Result<usize, ChainloadError>)
    ensures
        match r {
            Ok(volume) => first_match(paths@, guid@, 0) == Some(volume as int) && volume
                < paths.len() && volume_matches(paths@[volume as int], guid@),
            Err(e) => e == ChainloadError::NotFound && first_match(paths@, guid@, 0) is None,
        },
{
    let mut i: usize = 0;
    while i < paths.len()
        invariant
            i <= paths.len(),
            first_match(paths@, guid@, 0) == first_match(paths@, guid@, i as int),
        decreases paths.len() - i,
    {
        let found = match &paths[i] {
            Some(nodes) => leads_to_partition(nodes, guid),
            None => false,
        };
        if found {
            return Ok(i);
        }
        i += 1;
    }
    Err(ChainloadError::NotFound)
}

/// The device that a loader is taken from.
#[derive(Debug, Clone, Copy, PartialEq, Eq, Structural)]
pub enum Device {
    /// The device that this program was loaded from.
    Boot,
    /// The volume with this number among the volumes with a file system.
    Volume(usize),
}

/// What the caller did for a `Chainload` and what came of it.
#[derive(Debug, Clone, PartialEq, Eq)]
pub enum ChainloadEvent {
    /// The device that this program was loaded from is known.
    BootDevice,
    /// This program's image names no device.
    NoBootDevice,
    /// The number of volumes with a file system.
    Volumes(usize),
    /// The nodes of the device path of the volume that was asked for.
    DevicePath(Vec<PathNode>),
    /// The device path of the volume that was asked for could not be opened.
    Unreadable,
    /// The full path of the image was built, and the device path that it
    /// was built from is closed again.
    PathBuilt,
    /// The image was loaded and started, and has returned.
    Started,
    /// The firmware refused what was asked.
    Failed(ChainloadError),
}

/// A `ChainloadEvent` as plain values.
pub enum ChainloadEventView {
    BootDevice,
    NoBootDevice,
    Volumes(usize),
    DevicePath(Seq<PathNode>),
    Unreadable,
    PathBuilt,
    Started,
    Failed(ChainloadError),
}

impl View for ChainloadEvent {
    type V = ChainloadEventView;

    open spec fn view(&self) -> ChainloadEventView {
        match self {
            ChainloadEvent::BootDevice => ChainloadEventView::BootDevice,
            ChainloadEvent::NoBootDevice => ChainloadEventView::NoBootDevice,
            ChainloadEvent::Volumes(n) => ChainloadEventView::Volumes(*n),
            ChainloadEvent::DevicePath(nodes) => ChainloadEventView::DevicePath(nodes@),
            ChainloadEvent::Unreadable => ChainloadEventView::Unreadable,
            ChainloadEvent::PathBuilt => ChainloadEventView::PathBuilt,
            ChainloadEvent::Started => ChainloadEventView::Started,
            ChainloadEvent::Failed(e) => ChainloadEventView::Failed(*e),
        }
    }
}

/// What the caller is to do next for a `Chainload`.
#[derive(Debug, PartialEq, Eq)]
pub enum ChainloadAction {
    /// Find the device that this program was loaded from.
    FindBootDevice,
    /// Count the volumes with a file system.
    CountVolumes,
    /// Open the device path of this volume, read its nodes, and close it.
    ReadDevicePath(usize),
    /// Open the device path of `device`, make a copy of it with a file node
    /// for `file_path` appended, and close the device path again.
    BuildPath { device: Device, file_path: String },
    /// Load the image at the path that was built, and start it.
    StartImage,
    /// Nothing is left to do.
    Done(Result<(), ChainloadError>),
}

/// A `ChainloadAction` as plain values.
pub enum ChainloadActionView {
    FindBootDevice,
    CountVolumes,
    ReadDevicePath(usize),
    BuildPath { device: Device, file_path: Seq<char> },
    StartImage,
    Done(Result<(), ChainloadError>),
}

impl View for ChainloadAction {
    type V = ChainloadActionView;

    open spec fn view(&self) -> ChainloadActionView {
        match self {
            ChainloadAction::FindBootDevice => ChainloadActionView::FindBootDevice,
            ChainloadAction::CountVolumes => ChainloadActionView::CountVolumes,
            ChainloadAction::ReadDevicePath(volume) => ChainloadActionView::ReadDevicePath(*volume),
            ChainloadAction::BuildPath { device, file_path } => ChainloadActionView::BuildPath {
                device: *device,
                file_path: file_path@,
            },
            ChainloadAction::StartImage => ChainloadActionView::StartImage,
            ChainloadAction::Done(r) => ChainloadActionView::Done(*r),
        }
    }
}

/// One attempt to start a loader, step by step.
///
/// The caller does what `pending` says and hands what came of it to
/// `handle`, until `pending` says `Done`.
#[derive(Debug, PartialEq, Eq)]
pub enum Chainload {
    /// The boot device is being looked for.
    Locating { file_path: String },
    /// The volumes are being counted.
    Counting { guid: [u8; 16], file_path: String },
    /// The device path of `volume` is being read.
    Probing { guid: [u8; 16], volume: usize, volumes: usize, file_path: String },
    /// The full path of the image is being built from the device's path.
    Building { device: Device, file_path: String },
    /// The image is being loaded and started; no device path is open.
    Starting,
    /// The attempt is over.
    Finished(Result<(), ChainloadError>),
}

/// A `Chainload` as plain values.
pub enum ChainloadView {
    Locating { file_path: Seq<char> },
    Counting { guid: Seq<u8>, file_path: Seq<char> },
    Probing { guid: Seq<u8>, volume: usize, volumes: usize, file_path: Seq<char> },
    Building { device: Device, file_path: Seq<char> },
    Starting,
    Finished(Result<(), ChainloadError>),
}

impl View for Chainload {
    type V = ChainloadView;

    open spec fn view(&self) -> ChainloadView {
        match self {
            Chainload::Locating { file_path } => ChainloadView::Locating { file_path: file_path@ },
            Chainload::Counting { guid, file_path } => ChainloadView::Counting {
                guid: guid@,
                file_path: file_path@,
            },
            Chainload::Probing { guid, volume, volumes, file_path } => ChainloadView::Probing {
                guid: guid@,
                volume: *volume,
                volumes: *volumes,
                file_path: file_path@,
            },
            Chainload::Building { device, file_path } => ChainloadView::Building {
                device: *device,
                file_path: file_path@,
            },
            Chainload::Starting => ChainloadView::Starting,
            Chainload::Finished(r) => ChainloadView::Finished(*r),
        }
    }
}

/// How an attempt begins: a malformed target ends it at once, a target
/// without selector is looked for on the boot device, and one with a GUID on
/// the volumes.
pub open spec fn chainload_start(target: Seq<char>) -> ChainloadView {
    match chainload_target(target) {
        None => ChainloadView::Finished(Err(ChainloadError::LoadError)),
        Some((None, file_path)) => ChainloadView::Locating { file_path },
        Some((Some(guid), file_path)) => ChainloadView::Counting { guid, file_path },
    }
}

/// The attempt once the device is known: the path of the image is built,
/// unless the file path cannot be written in UCS-2.
pub open spec fn launch(device: Device, file_path: Seq<char>) -> ChainloadView {
    if fits_ucs2(file_path) {
        ChainloadView::Building { device, file_path }
    } else {
        ChainloadView::Finished(Err(ChainloadError::LoadError))
    }
}

/// The search for the partition when the volumes before `from` did not
/// match: it goes on with `from`, and ends with `NotFound` after the last volume.
pub open spec fn probe_from(guid: Seq<u8>, from: int, volumes: usize, file_path: Seq<char>) -> ChainloadView {
    if 0 <= from < volumes {
        ChainloadView::Probing { guid, volume: from as usize, volumes, file_path }
    } else {
        ChainloadView::Finished(Err(ChainloadError::NotFound))
    }
}

/// One step of an attempt. An event that does not answer what was asked
/// leaves the attempt as it is.
pub open spec fn chainload_step(state: ChainloadView, event: ChainloadEventView) -> ChainloadView {
    match state {
        ChainloadView::Locating { file_path } => match event {
            ChainloadEventView::BootDevice => launch(Device::Boot, file_path),
            ChainloadEventView::NoBootDevice => ChainloadView::Finished(
                Err(ChainloadError::Unsupported),
            ),
            ChainloadEventView::Failed(e) => ChainloadView::Finished(Err(e)),
            _ => state,
        },
        ChainloadView::Counting { guid, file_path } => match event {
            ChainloadEventView::Volumes(volumes) => probe_from(guid, 0, volumes, file_path),
            ChainloadEventView::Failed(e) => ChainloadView::Finished(Err(e)),
            _ => state,
        },
        ChainloadView::Probing { guid, volume, volumes, file_path } => match event {
            ChainloadEventView::DevicePath(nodes) => if partition_guid(nodes) == Some(guid) {
                launch(Device::Volume(volume), file_path)
            } else {
                probe_from(guid, volume + 1, volumes, file_path)
            },
            ChainloadEventView::Unreadable | ChainloadEventView::Failed(_) => probe_from(
                guid,
                volume + 1,
                volumes,
                file_path,
            ),
            _ => state,
        },
        ChainloadView::Building { .. } => match event {
            ChainloadEventView::PathBuilt => ChainloadView::Starting,
            ChainloadEventView::Failed(e) => ChainloadView::Finished(Err(e)),
            _ => state,
        },
        ChainloadView::Starting => match event {
            ChainloadEventView::Started => ChainloadView::Finished(Ok(())),
            ChainloadEventView::Failed(e) => ChainloadView::Finished(Err(e)),
            _ => state,
        },
        ChainloadView::Finished(_) => state,
    }
}

/// What the caller is to do in a given state.
pub open spec fn chainload_action(state: ChainloadView) -> ChainloadActionView {
    match state {
        ChainloadView::Locating { .. } => ChainloadActionView::FindBootDevice,
        ChainloadView::Counting { .. } => ChainloadActionView::CountVolumes,
        ChainloadView::Probing { volume, .. } => ChainloadActionView::ReadDevicePath(volume),
        ChainloadView::Building { device, file_path } => ChainloadActionView::BuildPath {
            device,
            file_path,
        },
        ChainloadView::Starting => ChainloadActionView::StartImage,
        ChainloadView::Finished(r) => ChainloadActionView::Done(r),
    }
}

/// A volume is chosen for a GUID only on the event that shows its device
/// path, and only where that path leads to a GPT partition with that GUID.
pub proof fn lemma_volume_chosen_only_on_match(state: ChainloadView, event: ChainloadEventView)
    requires
        !(state is Building),
        chainload_step(state, event) is Building,
        chainload_step(state, event)->Building_device is Volume,
    ensures
        ({
            &&& state matches ChainloadView::Probing { guid, volume, .. }
            &&& event matches ChainloadEventView::DevicePath(nodes)
            &&& chainload_step(state, event)->Building_device == Device::Volume(volume)
            &&& partition_guid(nodes) == Some(guid)
            &&& exists|i: int|
                0 <= i < nodes.len() && (forall|j: int| 0 <= j < i ==> nodes[j] is Other)
                    && is_gpt_partition(#[trigger] nodes[i], guid)
        }),
{
    match state {
        ChainloadView::Probing { guid, .. } => match event {
            ChainloadEventView::DevicePath(nodes) => {
                lemma_partition_guid_is_gpt(nodes, guid);
            },
            _ => {},
        },
        _ => {},
    }
}

/// What looking at the device path of a volume gave, as an event.
pub open spec fn probe_event(path: Option<Vec<PathNode>>) -> ChainloadEventView {
    match path {
        Some(nodes) => ChainloadEventView::DevicePath(nodes@),
        None => ChainloadEventView::Unreadable,
    }
}

/// The search after a look at the volumes `from .. to`, in their order.
pub open spec fn probe_run(
    state: ChainloadView,
    paths: Seq<Option<Vec<PathNode>>>,
    from: int,
    to: int,
) -> ChainloadView
    decreases to - from,
{
    if from >= to {
        state
    } else {
        chainload_step(probe_run(state, paths, from, to - 1), probe_event(paths[to - 1]))
    }
}

/// The search chooses the first volume that lies on the partition: while no
/// volume has matched, it stands at the next one; at the first match it goes
/// on with that volume; and after the last volume without a match it ends
/// with `NotFound`.
pub proof fn lemma_search_chooses_first_match(
    guid: Seq<u8>,
    file_path: Seq<char>,
    paths: Seq<Option<Vec<PathNode>>>,
    upto: int,
)
    requires
        paths.len() <= usize::MAX,
        0 <= upto <= paths.len(),
        match first_match(paths, guid, 0) {
            Some(volume) => upto <= volume + 1,
            None => true,
        },
    ensures
        probe_run(probe_from(guid, 0, paths.len() as usize, file_path), paths, 0, upto) == if upto
            > 0 && first_match(paths, guid, 0) == Some(upto - 1) {
            launch(Device::Volume((upto - 1) as usize), file_path)
        } else {
            probe_from(guid, upto, paths.len() as usize, file_path)
        },
    decreases upto,
{
    lemma_first_match_bounds(paths, guid, 0);
    if upto > 0 {
        let index = upto - 1;
        lemma_search_chooses_first_match(guid, file_path, paths, index);
        lemma_no_match_before_first(paths, guid, 0, index);
        lemma_first_match_bounds(paths, guid, index + 1);
        let before = probe_run(
            probe_from(guid, 0, paths.len() as usize, file_path),
            paths,
            0,
            index,
        );
        assert(before == probe_from(guid, index, paths.len() as usize, file_path));
    }
}

/// The first match lies at or after the place where the search for it
/// began, and the volume there does lie on the partition.
pub proof fn lemma_first_match_bounds(paths: Seq<Option<Vec<PathNode>>>, guid: Seq<u8>, from: int)
    ensures
        match first_match(paths, guid, from) {
            Some(volume) => 0 <= from <= volume < paths.len() && volume_matches(
                paths[volume],
                guid,
            ),
            None => true,
        },
    decreases paths.len() - from,
{
    if 0 <= from < paths.len() && !volume_matches(paths[from], guid) {
        lemma_first_match_bounds(paths, guid, from + 1);
    }
}

proof fn lemma_no_match_before_first(
    paths: Seq<Option<Vec<PathNode>>>,
    guid: Seq<u8>,
    from: int,
    index: int,
)
    requires
        0 <= from <= index < paths.len(),
        match first_match(paths, guid, from) {
            Some(volume) => index <= volume,
            None => true,
        },
    ensures
        first_match(paths, guid, from) == first_match(paths, guid, index),
    decreases index - from,
{
    if from < index {
        lemma_no_match_before_first(paths, guid, from + 1, index);
    }
}

/// The image is loaded and started only after its path was built and the
/// device path that it was built from was closed, and an attempt succeeds
/// only where the image was started.
pub proof fn lemma_image_starts_after_path_is_built(state: ChainloadView, event: ChainloadEventView)
    ensures
        chainload_step(state, event) is Starting && !(state is Starting) ==> state is Building
            && event is PathBuilt,
        chainload_step(state, event) == ChainloadView::Finished(Ok(())) && !(state is Finished)
            ==> state is Starting && event is Started,
{
}

fn launch_on(device: Device, file_path: String) -> (next: Chainload)
    ensures
        next@ == launch(device, file_path@),
{
    if encodes_as_ucs2(file_path.as_str()) {
        Chainload::Building { device, file_path }
    } else {
        Chainload::Finished(Err(ChainloadError::LoadError))
    }
}

fn probe_at(guid: [u8; 16], from: usize, volumes: usize, file_path: String) -> (next: Chainload)
    ensures
        next@ == probe_from(guid@, from as int, volumes, file_path@),
{
    if from < volumes {
        Chainload::Probing { guid, volume: from, volumes, file_path }
    } else {
        Chainload::Finished(Err(ChainloadError::NotFound))
    }
}

fn probe_after(guid: [u8; 16], volume: usize, volumes: usize, file_path: String) -> (next:
    Chainload)
    ensures
        next@ == probe_from(guid@, volume + 1, volumes, file_path@),
{
    if volume < volumes {
        probe_at(guid, volume + 1, volumes, file_path)
    } else {
        Chainload::Finished(Err(ChainloadError::NotFound))
    }
}

impl Chainload {
    /// Begins an attempt to start the loader that `target` names.
    pub fn new(target: &str) -> (attempt: Chainload)
        ensures
            attempt@ == chainload_start(target@),
    {
        match parse_chainload_target(target) {
            Err(e) => Chainload::Finished(Err(e)),
            Ok((None, file_path)) => Chainload::Locating { file_path },
            Ok((Some(ChainloadDeviceSelector::PartitionGuid(guid)), file_path)) => {
                Chainload::Counting { guid, file_path }
            },
        }
    }

    /// What the caller is to do next.
    pub fn pending(&self) -> (action: ChainloadAction)
        ensures
            action@ == chainload_action(self@),
    {
        match self {
            Chainload::Locating { .. } => ChainloadAction::FindBootDevice,
            Chainload::Counting { .. } => ChainloadAction::CountVolumes,
            Chainload::Probing { volume, .. } => ChainloadAction::ReadDevicePath(*volume),
            Chainload::Building { device, file_path } => ChainloadAction::BuildPath {
                device: *device,
                file_path: file_path.clone(),
            },
            Chainload::Starting => ChainloadAction::StartImage,
            Chainload::Finished(r) => ChainloadAction::Done(*r),
        }
    }

    /// Takes in what came of the pending action.
    pub fn handle(self, event: &ChainloadEvent) -> (next: Chainload)
        ensures
            next@ == chainload_step(self@, event@),
    {
        match self {
            Chainload::Locating { file_path } => match event {
                ChainloadEvent::BootDevice => launch_on(Device::Boot, file_path),
                ChainloadEvent::NoBootDevice => Chainload::Finished(
                    Err(ChainloadError::Unsupported),
                ),
                ChainloadEvent::Failed(e) => Chainload::Finished(Err(*e)),
                _ => Chainload::Locating { file_path },
            },
            Chainload::Counting { guid, file_path } => match event {
                ChainloadEvent::Volumes(volumes) => probe_at(guid, 0, *volumes, file_path),
                ChainloadEvent::Failed(e) => Chainload::Finished(Err(*e)),
                _ => Chainload::Counting { guid, file_path },
            },
            Chainload::Probing { guid, volume, volumes, file_path } => match event {
                ChainloadEvent::DevicePath(nodes) => if leads_to_partition(nodes, &guid) {
                    launch_on(Device::Volume(volume), file_path)
                } else {
                    probe_after(guid, volume, volumes, file_path)
                },
                ChainloadEvent::Unreadable | ChainloadEvent::Failed(_) => probe_after(
                    guid,
                    volume,
                    volumes,
                    file_path,
                ),
                _ => Chainload::Probing { guid, volume, volumes, file_path },
            },
            Chainload::Building { device, file_path } => match event {
                ChainloadEvent::PathBuilt => Chainload::Starting,
                ChainloadEvent::Failed(e) => Chainload::Finished(Err(*e)),
                _ => Chainload::Building { device, file_path },
            },
            Chainload::Starting => match event {
                ChainloadEvent::Started => Chainload::Finished(Ok(())),
                ChainloadEvent::Failed(e) => Chainload::Finished(Err(*e)),
                _ => Chainload::Starting,
            },
            Chainload::Finished(r) => Chainload::Finished(r),
        }
    }
}

} // verus!
