use decider::nixos::{
    consider, directory_path, find_latest_nixos_entry, parse_nixos_generation_conf_name,
    parse_nixos_generation_efi_name, DirEvent, EntryDir, GenerationResolutionError,
    GenerationScan,
};

fn names(items: &[&str]) -> Vec<String> {
    items.iter().map(|s| s.to_string()).collect()
}

#[test]
fn conf_name_with_a_number() {
    assert_eq!(
        parse_nixos_generation_conf_name("nixos-generation-42.conf"),
        Some((42, "nixos-generation-42".to_string()))
    );
}

#[test]
fn conf_name_without_a_number() {
    assert_eq!(parse_nixos_generation_conf_name("nixos-generation-.conf"), None);
}

#[test]
fn conf_name_of_another_shape() {
    assert_eq!(parse_nixos_generation_conf_name("other.conf"), None);
    assert_eq!(parse_nixos_generation_conf_name(""), None);
    assert_eq!(parse_nixos_generation_conf_name("nixos-generation-42.efi"), None);
    assert_eq!(parse_nixos_generation_conf_name("nixos-generation-42.conf "), None);
    assert_eq!(parse_nixos_generation_conf_name("nixos-generation-4x.conf"), None);
    assert_eq!(parse_nixos_generation_conf_name("nixos-generation-7-foo.conf"), None);
    assert_eq!(parse_nixos_generation_conf_name("Nixos-generation-7.conf"), None);
    assert_eq!(parse_nixos_generation_conf_name("nixos-generation-.con"), None);
    assert_eq!(parse_nixos_generation_conf_name("nixos-generation-\u{663}.conf"), None);
}

#[test]
fn conf_name_at_the_limit_of_64_bits() {
    assert_eq!(
        parse_nixos_generation_conf_name("nixos-generation-18446744073709551615.conf"),
        Some((u64::MAX, "nixos-generation-18446744073709551615".to_string()))
    );
    assert_eq!(
        parse_nixos_generation_conf_name("nixos-generation-18446744073709551616.conf"),
        None
    );
    assert_eq!(
        parse_nixos_generation_conf_name("nixos-generation-99999999999999999999999.conf"),
        None
    );
    assert_eq!(
        parse_nixos_generation_conf_name("nixos-generation-000000000000000000000007.conf"),
        Some((7, "nixos-generation-000000000000000000000007".to_string()))
    );
}

#[test]
fn conf_name_with_a_sign() {
    assert_eq!(
        parse_nixos_generation_conf_name("nixos-generation-+5.conf"),
        Some((5, "nixos-generation-+5".to_string()))
    );
    assert_eq!(parse_nixos_generation_conf_name("nixos-generation-+.conf"), None);
    assert_eq!(parse_nixos_generation_conf_name("nixos-generation--5.conf"), None);
    assert_eq!(parse_nixos_generation_conf_name("nixos-generation-++5.conf"), None);
}

#[test]
fn conf_names_agree_with_the_standard_parser() {
    for number in ["0", "1", "+1", "-1", "", "+", "12a", " 12", "١٢", "00", "18446744073709551615",
        "18446744073709551616", "184467440737095516150"]
    {
        let name = format!("nixos-generation-{}.conf", number);
        let expected = number.parse::<u64>().ok().map(|g| (g, format!("nixos-generation-{}", number)));
        assert_eq!(parse_nixos_generation_conf_name(&name), expected, "{}", name);
    }
}

#[test]
fn efi_name_with_a_number() {
    assert_eq!(
        parse_nixos_generation_efi_name("nixos-generation-7-foo.efi"),
        Some((7, "nixos-generation-7-foo".to_string()))
    );
    assert_eq!(
        parse_nixos_generation_efi_name("nixos-generation-12.efi"),
        Some((12, "nixos-generation-12".to_string()))
    );
    assert_eq!(
        parse_nixos_generation_efi_name("nixos-generation-12-a-b-c.efi"),
        Some((12, "nixos-generation-12-a-b-c".to_string()))
    );
    assert_eq!(
        parse_nixos_generation_efi_name("nixos-generation-3-.efi"),
        Some((3, "nixos-generation-3-".to_string()))
    );
}

#[test]
fn efi_name_of_another_shape() {
    assert_eq!(parse_nixos_generation_efi_name("nixos-generation-.efi"), None);
    assert_eq!(parse_nixos_generation_efi_name("nixos-generation--foo.efi"), None);
    assert_eq!(parse_nixos_generation_efi_name("nixos-generation-7foo.efi"), None);
    assert_eq!(parse_nixos_generation_efi_name("nixos-generation-7.conf"), None);
    assert_eq!(parse_nixos_generation_efi_name("other.efi"), None);
    assert_eq!(parse_nixos_generation_efi_name("nixos-generation-7.conf.efi"), None);
}

#[test]
fn the_greatest_generation_wins() {
    let mut best = None;
    for (generation, id) in [(3u64, "a"), (10, "b"), (2, "c")] {
        best = consider(best, Some((generation, id.to_string())));
    }
    assert_eq!(best, Some((10, "b".to_string())));
}

#[test]
fn of_two_equal_generations_the_first_is_kept() {
    let best = consider(None, Some((5, "first".to_string())));
    let best = consider(best, Some((5, "second".to_string())));
    assert_eq!(best, Some((5, "first".to_string())));
}

#[test]
fn a_name_that_is_no_candidate_changes_nothing() {
    assert_eq!(consider(None, None), None);
    assert_eq!(consider(Some((1, "a".to_string())), None), Some((1, "a".to_string())));
}

#[test]
fn latest_entry_of_both_directories() {
    let loader = names(&["nixos-generation-3.conf", "readme.txt", "nixos-generation-10.conf",
        "nixos-generation-2.conf"]);
    let images = names(&["nixos-generation-9-abc.efi", "nixos-generation-11.conf"]);
    assert_eq!(find_latest_nixos_entry(&loader, &images), Ok("nixos-generation-10".to_string()));
    let images = names(&["nixos-generation-12-abc.efi"]);
    assert_eq!(
        find_latest_nixos_entry(&loader, &images),
        Ok("nixos-generation-12-abc".to_string())
    );
}

#[test]
fn latest_entry_prefers_the_loader_entry_of_two_equal_generations() {
    let loader = names(&["nixos-generation-5.conf"]);
    let images = names(&["nixos-generation-5-x.efi"]);
    assert_eq!(find_latest_nixos_entry(&loader, &images), Ok("nixos-generation-5".to_string()));
    assert_eq!(
        find_latest_nixos_entry(&names(&["nixos-generation-5.conf", "nixos-generation-05.conf"]), &names(&[])),
        Ok("nixos-generation-5".to_string())
    );
}

#[test]
fn latest_entry_of_nothing() {
    assert_eq!(
        find_latest_nixos_entry(&names(&[]), &names(&[])),
        Err(GenerationResolutionError::NotFound)
    );
    assert_eq!(
        find_latest_nixos_entry(&names(&["a.conf"]), &names(&["nixos-generation-1.conf"])),
        Err(GenerationResolutionError::NotFound)
    );
}

#[test]
fn scan_reads_loader_entries_first() {
    let scan = GenerationScan::new();
    assert_eq!(scan.pending(), Some(EntryDir::LoaderEntries));
    let scan = scan.handle(DirEvent::Entry("nixos-generation-4.conf".to_string()));
    assert_eq!(scan.pending(), Some(EntryDir::LoaderEntries));
    let scan = scan.handle(DirEvent::End);
    assert_eq!(scan.pending(), Some(EntryDir::EfiLinux));
    let scan = scan.handle(DirEvent::Entry("nixos-generation-6-x.efi".to_string()));
    let scan = scan.handle(DirEvent::Entry("nixos-generation-6.conf".to_string()));
    let scan = scan.handle(DirEvent::End);
    assert_eq!(scan.pending(), None);
    assert_eq!(scan.outcome(), Some(Ok("nixos-generation-6-x".to_string())));
}

#[test]
fn scan_uses_the_parser_of_each_directory() {
    let scan = GenerationScan::new();
    let scan = scan.handle(DirEvent::Entry("nixos-generation-8-x.efi".to_string()));
    let scan = scan.handle(DirEvent::End);
    let scan = scan.handle(DirEvent::Entry("nixos-generation-9.conf".to_string()));
    let scan = scan.handle(DirEvent::End);
    assert_eq!(scan.outcome(), Some(Err(GenerationResolutionError::NotFound)));
}

#[test]
fn scan_takes_a_missing_directory_for_an_empty_one() {
    let scan = GenerationScan::new().handle(DirEvent::Missing);
    assert_eq!(scan.pending(), Some(EntryDir::EfiLinux));
    let scan = scan.handle(DirEvent::Entry("nixos-generation-1.efi".to_string()));
    let scan = scan.handle(DirEvent::Missing);
    assert_eq!(scan.outcome(), Some(Ok("nixos-generation-1".to_string())));
    let scan = GenerationScan::new().handle(DirEvent::Missing).handle(DirEvent::Missing);
    assert_eq!(scan.outcome(), Some(Err(GenerationResolutionError::NotFound)));
}

#[test]
fn scan_ends_on_a_failure() {
    let scan = GenerationScan::new();
    let scan = scan.handle(DirEvent::Entry("nixos-generation-4.conf".to_string()));
    let scan = scan.handle(DirEvent::Failed);
    assert_eq!(scan.pending(), None);
    let scan = scan.handle(DirEvent::Entry("nixos-generation-5.conf".to_string()));
    assert_eq!(scan.outcome(), Some(Err(GenerationResolutionError::IoError)));
}

#[test]
fn scan_has_no_outcome_before_its_end() {
    assert_eq!(GenerationScan::new().outcome(), None);
}

#[test]
fn paths_of_the_directories() {
    assert_eq!(directory_path(EntryDir::LoaderEntries), "\\loader\\entries");
    assert_eq!(directory_path(EntryDir::EfiLinux), "\\EFI\\Linux");
}
