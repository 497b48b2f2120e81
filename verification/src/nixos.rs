//! Finding the newest NixOS generation among boot-entry file names.

use vstd::prelude::*;
use crate::text::{between, chars_of, find_char, first_index, string_of, strip_affixes};

verus! {

/// Directory of boot-loader entry files, one `.conf` file per generation.
pub const LOADER_ENTRIES_PATH: &'static str = "\\loader\\entries";

/// Directory of unified kernel images, one `.efi` file per generation.
pub const EFI_LINUX_PATH: &'static str = "\\EFI\\Linux";

/// Why no generation was found.
#[derive(Debug, Clone, Copy, PartialEq, Eq, Structural)]
pub enum GenerationResolutionError {
    /// No file name in either directory names a generation.
    NotFound,
    /// A directory could not be read.
    IoError,
}

/// A generation number and the entry identifier that goes with it.
pub type Candidate = (u64, Seq<char>);

pub open spec fn is_digit(c: char) -> bool {
    0x30 <= c as u32 <= 0x39
}

pub open spec fn digit_of(c: char) -> nat {
    if is_digit(c) {
        (c as u32 - 0x30) as nat
    } else {
        0
    }
}

pub open spec fn all_digits(s: Seq<char>) -> bool {
    forall|i: int| 0 <= i < s.len() ==> is_digit(#[trigger] s[i])
}

/// The number that a run of decimal digits denotes.
pub open spec fn digits_value(s: Seq<char>) -> nat
    decreases s.len(),
{
    if s.len() == 0 {
        0
    } else {
        digits_value(s.drop_last()) * 10 + digit_of(s.last())
    }
}

/// An unsigned decimal number: an optional `+`, then at least one digit,
/// with a value that fits 64 bits.
pub open spec fn decimal_u64(s: Seq<char>) -> Option<u64> {
    let digits = if s.len() > 0 && s[0] == '+' {
        s.drop_first()
    } else {
        s
    };
    if digits.len() > 0 && all_digits(digits) && digits_value(digits) <= u64::MAX {
        Some(digits_value(digits) as u64)
    } else {
        None
    }
}

/// What a file name `nixos-generation-<N>.conf` stands for: generation `N`,
/// under the name without `.conf`.
pub open spec fn conf_entry(name: Seq<char>) -> Option<Candidate> {
    match between(name, "nixos-generation-"@, ".conf"@) {
        Some(number) => match decimal_u64(number) {
            Some(generation) => Some((generation, name.take(name.len() - ".conf"@.len()))),
            None => None,
        },
        None => None,
    }
}

/// What a file name `nixos-generation-<N>.efi` or
/// `nixos-generation-<N>-<rest>.efi` stands for: generation `N`, under the
/// name without `.efi`.
pub open spec fn efi_entry(name: Seq<char>) -> Option<Candidate> {
    match between(name, "nixos-generation-"@, ".efi"@) {
        Some(middle) => match decimal_u64(middle.take(first_index(middle, '-'))) {
            Some(generation) => Some((generation, name.take(name.len() - ".efi"@.len()))),
            None => None,
        },
        None => None,
    }
}

proof fn lemma_digits_value_grows(s: Seq<char>, k: int)
    requires
        0 <= k <= s.len(),
    ensures
        digits_value(s.take(k)) <= digits_value(s),
    decreases s.len(),
{
    if k == s.len() {
        assert(s.take(k) =~= s);
    } else {
        lemma_digits_value_grows(s.drop_last(), k);
        assert(s.drop_last().take(k) =~= s.take(k));
    }
}

fn parse_decimal(v: &Vec<char>, lo: usize, hi: usize) -> (r: Option<u64>)
    requires
        lo <= hi <= v.len(),
    ensures
        r == decimal_u64(v@.subrange(lo as int, hi as int)),
{
    let ghost whole = v@.subrange(lo as int, hi as int);
    let mut i: usize = lo;
    if i < hi && v[i] == '+' {
        i += 1;
    }
    let start = i;
    let ghost digits = v@.subrange(start as int, hi as int);
    proof {
        if start > lo {
            assert(whole.drop_first() =~= digits);
        } else {
            assert(whole =~= digits);
        }
    }
    if start == hi {
        return None;
    }
    let mut acc: u64 = 0;
    while i < hi
        invariant
            start <= i <= hi <= v.len(),
            digits == v@.subrange(start as int, hi as int),
            digits.len() > 0,
            decimal_u64(v@.subrange(lo as int, hi as int)) == if all_digits(digits)
                && digits_value(digits) <= u64::MAX {
                Some(digits_value(digits) as u64)
            } else {
                None
            },
            all_digits(digits.take(i - start)),
            acc == digits_value(digits.take(i - start)),
        decreases hi - i,
    {
        let u: u32 = v[i] as u32;
        if u < 0x30 || u > 0x39 {
            assert(!is_digit(digits[i - start]));
            return None;
        }
        let d: u64 = (u - 0x30) as u64;
        proof {
            assert(digits.take(i - start + 1).drop_last() =~= digits.take(i - start));
            assert(digits.take(i - start + 1).last() == v@[i as int]);
        }
        if acc > (u64::MAX - d) / 10 {
            proof {
                assert(digits_value(digits.take(i - start + 1)) > u64::MAX);
                lemma_digits_value_grows(digits, i - start + 1);
            }
            return None;
        }
        acc = acc * 10 + d;
        i += 1;
    }
    proof {
        assert(digits.take(hi - start) =~= digits);
    }
    Some(acc)
}

/// Reads a loader-entry file name: `nixos-generation-<N>.conf`.
pub fn parse_nixos_generation_conf_name(name: &str) -> (r: Option<(u64, String)>)
    ensures
        r.deep_view() == conf_entry(name@),
{
    let v = chars_of(name);
    match strip_affixes(&v, "nixos-generation-", ".conf") {
        Some((lo, hi)) => match parse_decimal(&v, lo, hi) {
            Some(generation) => Some((generation, string_of(&v, 0, hi))),
            None => None,
        },
        None => None,
    }
}

/// Reads a kernel-image file name: `nixos-generation-<N>.efi`, where a `-`
/// and anything more may follow the number.
pub fn parse_nixos_generation_efi_name(name: &str) -> (r: Option<(u64, String)>)
    ensures
        r.deep_view() == efi_entry(name@),
{
    let v = chars_of(name);
    match strip_affixes(&v, "nixos-generation-", ".efi") {
        Some((lo, hi)) => {
            let dash = find_char(&v, lo, hi, '-');
            proof {
                assert(v@.subrange(lo as int, hi as int).take(dash - lo) =~= v@.subrange(
                    lo as int,
                    dash as int,
                ));
            }
            match parse_decimal(&v, lo, dash) {
                Some(generation) => Some((generation, string_of(&v, 0, hi))),
                None => None,
            }
        },
        None => None,
    }
}

/// One of the two directories that are searched for generations.
#[derive(Debug, Clone, Copy, PartialEq, Eq, Structural)]
pub enum EntryDir {
    /// `LOADER_ENTRIES_PATH`, read with `parse_nixos_generation_conf_name`.
    LoaderEntries,
    /// `EFI_LINUX_PATH`, read with `parse_nixos_generation_efi_name`.
    EfiLinux,
}

/// What a file name in the given directory stands for.
pub open spec fn entry_of(dir: EntryDir, name: Seq<char>) -> Option<Candidate> {
    match dir {
        EntryDir::LoaderEntries => conf_entry(name),
        EntryDir::EfiLinux => efi_entry(name),
    }
}

/// The better of the best candidate so far and a new one: the new one only
/// where its generation is strictly greater.
pub open spec fn prefer(best: Option<Candidate>, found: Option<Candidate>) -> Option<Candidate> {
    match found {
        None => best,
        Some(c) => match best {
            None => Some(c),
            Some(b) => if c.0 > b.0 {
                Some(c)
            } else {
                Some(b)
            },
        },
    }
}

/// The best of a sequence of candidates, taken in order.
pub open spec fn best_of(found: Seq<Candidate>) -> Option<Candidate>
    decreases found.len(),
{
    if found.len() == 0 {
        None
    } else {
        prefer(best_of(found.drop_last()), Some(found.last()))
    }
}

/// The candidates among the file names of a directory, in order.
pub open spec fn candidates(dir: EntryDir, names: Seq<Seq<char>>) -> Seq<Candidate>
    decreases names.len(),
{
    if names.len() == 0 {
        Seq::empty()
    } else {
        let before = candidates(dir, names.drop_last());
        match entry_of(dir, names.last()) {
            Some(c) => before.push(c),
            None => before,
        }
    }
}

/// The entry of the newest generation among the file names of the two
/// directories, or `NotFound`.
pub open spec fn latest_entry(loader_entries: Seq<Seq<char>>, efi_images: Seq<Seq<char>>) -> Result<
    Seq<char>,
    GenerationResolutionError,
> {
    verdict(
        best_of(
            candidates(EntryDir::LoaderEntries, loader_entries) + candidates(
                EntryDir::EfiLinux,
                efi_images,
            ),
        ),
    )
}

/// The result of a search that ended with this best candidate.
pub open spec fn verdict(best: Option<Candidate>) -> Result<Seq<char>, GenerationResolutionError> {
    match best {
        Some(c) => Ok(c.1),
        None => Err(GenerationResolutionError::NotFound),
    }
}

/// The best candidate is the first one that has the greatest generation:
/// none has a greater one, and every earlier one has a smaller one.
pub proof fn lemma_best_is_first_maximum(found: Seq<Candidate>)
    ensures
        match best_of(found) {
            None => found.len() == 0,
            Some(b) => exists|i: int|
                0 <= i < found.len() && found[i] == b && (forall|j: int|
                    0 <= j < found.len() ==> (#[trigger] found[j]).0 <= b.0) && (forall|j: int|
                    0 <= j < i ==> (#[trigger] found[j]).0 < b.0),
        },
    decreases found.len(),
{
    if found.len() > 0 {
        let init = found.drop_last();
        let last = found.last();
        lemma_best_is_first_maximum(init);
        match best_of(init) {
            None => {
                assert(found[0] == last);
            },
            Some(b) => {
                let i = choose|i: int|
                    0 <= i < init.len() && init[i] == b && (forall|j: int|
                        0 <= j < init.len() ==> (#[trigger] init[j]).0 <= b.0) && (forall|j: int|
                        0 <= j < i ==> (#[trigger] init[j]).0 < b.0);
                assert(forall|j: int| 0 <= j < init.len() ==> init[j] == found[j]);
                if last.0 > b.0 {
                    let k = found.len() - 1;
                    assert(found[k] == last);
                    assert forall|j: int| 0 <= j < k implies (#[trigger] found[j]).0 < last.0 by {
                        assert(init[j].0 <= b.0);
                    }
                } else {
                    assert(found[i] == b);
                    assert forall|j: int| 0 <= j < found.len() implies (#[trigger] found[j]).0
                        <= b.0 by {
                        if j < init.len() {
                            assert(init[j].0 <= b.0);
                        }
                    }
                    assert forall|j: int| 0 <= j < i implies (#[trigger] found[j]).0 < b.0 by {
                        assert(init[j].0 < b.0);
                    }
                }
            },
        }
    }
}

/// What reading a directory gave.
#[derive(Debug, Clone, PartialEq, Eq)]
pub enum DirEvent {
    /// The directory does not exist, or the path names no directory.
    Missing,
    /// The next entry, by its file name.
    Entry(String),
    /// The directory has no more entries.
    End,
    /// The directory could not be opened or read.
    Failed,
}

/// A `DirEvent` as plain text.
pub enum DirEventView {
    Missing,
    Entry(Seq<char>),
    End,
    Failed,
}

impl View for DirEvent {
    type V = DirEventView;

    open spec fn view(&self) -> DirEventView {
        match self {
            DirEvent::Missing => DirEventView::Missing,
            DirEvent::Entry(name) => DirEventView::Entry(name@),
            DirEvent::End => DirEventView::End,
            DirEvent::Failed => DirEventView::Failed,
        }
    }
}

/// The search for the newest generation, one directory entry at a time.
///
/// While `pending` names a directory, the caller reads the next entry of that
/// directory and hands what it got to `handle`.
#[derive(Debug, PartialEq, Eq)]
pub enum GenerationScan {
    /// Entries of `dir` are being read; `best` is the best candidate so far.
    Reading { dir: EntryDir, best: Option<(u64, String)> },
    /// The search is over.
    Finished(Result<String, GenerationResolutionError>),
}

/// A `GenerationScan` as plain text.
pub enum ScanView {
    Reading { dir: EntryDir, best: Option<Candidate> },
    Finished(Result<Seq<char>, GenerationResolutionError>),
}

impl View for GenerationScan {
    type V = ScanView;

    open spec fn view(&self) -> ScanView {
        match self {
            GenerationScan::Reading { dir, best } => ScanView::Reading {
                dir: *dir,
                best: best.deep_view(),
            },
            GenerationScan::Finished(Ok(id)) => ScanView::Finished(Ok(id@)),
            GenerationScan::Finished(Err(e)) => ScanView::Finished(Err(*e)),
        }
    }
}

/// Where the search stands once `dir` has been read to its end.
pub open spec fn after_directory(dir: EntryDir, best: Option<Candidate>) -> ScanView {
    match dir {
        EntryDir::LoaderEntries => ScanView::Reading { dir: EntryDir::EfiLinux, best },
        EntryDir::EfiLinux => ScanView::Finished(verdict(best)),
    }
}

/// One step of the search. A missing directory counts as an empty one, a
/// failure ends the search, and a finished search stays as it is.
pub open spec fn scan_step(state: ScanView, event: DirEventView) -> ScanView {
    match state {
        ScanView::Finished(_) => state,
        ScanView::Reading { dir, best } => match event {
            DirEventView::Entry(name) => ScanView::Reading {
                dir,
                best: prefer(best, entry_of(dir, name)),
            },
            DirEventView::Missing | DirEventView::End => after_directory(dir, best),
            DirEventView::Failed => ScanView::Finished(Err(GenerationResolutionError::IoError)),
        },
    }
}

/// The search after the entries `names` of its current directory.
pub open spec fn scan_names(state: ScanView, names: Seq<Seq<char>>) -> ScanView
    decreases names.len(),
{
    if names.len() == 0 {
        state
    } else {
        scan_step(scan_names(state, names.drop_last()), DirEventView::Entry(names.last()))
    }
}

/// Reading all of one directory's names adds its candidates, in order, to
/// those found before.
pub proof fn lemma_scan_names(dir: EntryDir, before: Seq<Candidate>, names: Seq<Seq<char>>)
    ensures
        scan_names(ScanView::Reading { dir, best: best_of(before) }, names) == (ScanView::Reading {
            dir,
            best: best_of(before + candidates(dir, names)),
        }),
    decreases names.len(),
{
    if names.len() == 0 {
        assert(before + candidates(dir, names) =~= before);
    } else {
        lemma_scan_names(dir, before, names.drop_last());
        let init = candidates(dir, names.drop_last());
        match entry_of(dir, names.last()) {
            Some(c) => {
                assert(before + init.push(c) =~= (before + init).push(c));
                assert((before + init).push(c).drop_last() =~= before + init);
            },
            None => {},
        }
    }
}

/// The path of a searched directory.
pub fn directory_path(dir: EntryDir) -> (path: &'static str)
    ensures
        path@ == match dir {
            EntryDir::LoaderEntries => LOADER_ENTRIES_PATH@,
            EntryDir::EfiLinux => EFI_LINUX_PATH@,
        },
{
    match dir {
        EntryDir::LoaderEntries => LOADER_ENTRIES_PATH,
        EntryDir::EfiLinux => EFI_LINUX_PATH,
    }
}

/// Keeps the better of two candidates: `found` only where its generation is
/// strictly greater than that of `best`.
pub fn consider(best: Option<(u64, String)>, found: Option<(u64, String)>) -> (r: Option<
    (u64, String),
>)
    ensures
        r.deep_view() == prefer(best.deep_view(), found.deep_view()),
{
    match found {
        None => best,
        Some(c) => match best {
            None => Some(c),
            Some(b) => if c.0 > b.0 {
                Some(c)
            } else {
                Some(b)
            },
        },
    }
}

impl GenerationScan {
    /// A search that has read nothing yet.
    pub fn new() -> (scan: GenerationScan)
        ensures
            scan@ == (ScanView::Reading { dir: EntryDir::LoaderEntries, best: None }),
    {
        GenerationScan::Reading { dir: EntryDir::LoaderEntries, best: None }
    }

    /// The directory whose next entry is wanted, or `None` once the search is over.
    pub fn pending(&self) -> (dir: Option<EntryDir>)
        ensures
            dir == match self@ {
                ScanView::Reading { dir, .. } => Some(dir),
                ScanView::Finished(_) => None,
            },
    {
        match self {
            GenerationScan::Reading { dir, .. } => Some(*dir),
            GenerationScan::Finished(_) => None,
        }
    }

    /// Takes in what reading the pending directory gave.
    pub fn handle(self, event: DirEvent) -> (next: GenerationScan)
        ensures
            next@ == scan_step(self@, event@),
    {
        match self {
            GenerationScan::Finished(result) => GenerationScan::Finished(result),
            GenerationScan::Reading { dir, best } => match event {
                DirEvent::Entry(name) => {
                    let found = match dir {
                        EntryDir::LoaderEntries => parse_nixos_generation_conf_name(name.as_str()),
                        EntryDir::EfiLinux => parse_nixos_generation_efi_name(name.as_str()),
                    };
                    GenerationScan::Reading { dir, best: consider(best, found) }
                },
                DirEvent::Missing | DirEvent::End => match dir {
                    EntryDir::LoaderEntries => GenerationScan::Reading {
                        dir: EntryDir::EfiLinux,
                        best,
                    },
                    EntryDir::EfiLinux => GenerationScan::Finished(
                        match best {
                            Some(c) => Ok(c.1),
                            None => Err(GenerationResolutionError::NotFound),
                        },
                    ),
                },
                DirEvent::Failed => GenerationScan::Finished(
                    Err(GenerationResolutionError::IoError),
                ),
            },
        }
    }

    /// The result of the search, once it is over.
    pub fn outcome(self) -> (r: Option<Result<String, GenerationResolutionError>>)
        ensures
            match self@ {
                ScanView::Reading { .. } => r is None,
                ScanView::Finished(result) => r is Some && result_text(r->0) == result,
            },
    {
        match self {
            GenerationScan::Reading { .. } => None,
            GenerationScan::Finished(result) => Some(result),
        }
    }
}

/// A search result as plain text.
pub open spec fn result_text(r: Result<String, GenerationResolutionError>) -> Result<
    Seq<char>,
    GenerationResolutionError,
> {
    match r {
        Ok(id) => Ok(id@),
        Err(e) => Err(e),
    }
}

fn scan_listing(scan: GenerationScan, names: &Vec<String>) -> (next: GenerationScan)
    ensures
        next@ == scan_names(scan@, names.deep_view()),
{
    let ghost start = scan@;
    let mut scan = scan;
    let mut i: usize = 0;
    while i < names.len()
        invariant
            i <= names.len(),
            scan@ == scan_names(start, names.deep_view().take(i as int)),
        decreases names.len() - i,
    {
        proof {
            assert(names.deep_view().take(i + 1).drop_last() =~= names.deep_view().take(i as int));
        }
        scan = scan.handle(DirEvent::Entry(names[i].clone()));
        i += 1;
    }
    proof {
        assert(names.deep_view().take(names.len() as int) =~= names.deep_view());
    }
    scan
}

/// The entry of the newest generation among the file names of the loader
/// entries directory and those of the kernel images directory. Of several
/// with the greatest generation, the first one wins, loader entries first.
pub fn find_latest_nixos_entry(loader_entries: &Vec<String>, efi_images: &Vec<String>) -> (r:
    Result<String, GenerationResolutionError>)
    ensures
        result_text(r) == latest_entry(loader_entries.deep_view(), efi_images.deep_view()),
{
    let ghost first = candidates(EntryDir::LoaderEntries, loader_entries.deep_view());
    let ghost second = candidates(EntryDir::EfiLinux, efi_images.deep_view());
    let scan = scan_listing(GenerationScan::new(), loader_entries);
    proof {
        lemma_scan_names(EntryDir::LoaderEntries, Seq::empty(), loader_entries.deep_view());
        assert(Seq::<Candidate>::empty() + first =~= first);
    }
    let scan = scan.handle(DirEvent::End);
    let scan = scan_listing(scan, efi_images);
    proof {
        lemma_scan_names(EntryDir::EfiLinux, first, efi_images.deep_view());
    }
    let scan = scan.handle(DirEvent::End);
    match scan {
        GenerationScan::Finished(result) => result,
        GenerationScan::Reading { .. } => Err(GenerationResolutionError::NotFound),
    }
}

} // verus!
