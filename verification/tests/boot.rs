use decider::boot::{
    oneshot_gate_open, Boot, BootAction, BootEvent, GateReading, Phase, ONESHOT_VAR_ATTRIBUTES,
    ONESHOT_VAR_NAME, ONESHOT_VAR_VENDOR,
};
use decider::chainload::ChainloadError;
use decider::config::{parse_config, Choice, ChoiceLookupError, Config};
use decider::nixos::GenerationResolutionError;

const DEFAULT: &str = "\\EFI\\systemd\\systemd-bootx64.efi";

fn config_fs() -> Config {
    parse_config(
        "chainload_systemd_path=/EFI/systemd/systemd-bootx64.efi\nchainload_linux_path=/EFI/Linux/l.efi\n",
    )
    .unwrap()
}

fn config_tftp() -> Config {
    parse_config(
        "chainload_systemd_path=/EFI/systemd/systemd-bootx64.efi\nchoice_source=tftp\ntftp_ip=10.0.0.1\n",
    )
    .unwrap()
}

fn default_chainload() -> BootAction {
    BootAction::Chainload { target: DEFAULT.to_string() }
}

fn at_lookup(config: Config) -> Boot {
    Boot::new(config).handle(BootEvent::Connected).handle(BootEvent::Gate(GateReading::Absent))
}

#[test]
fn gate_is_open_unless_the_variable_exists() {
    assert!(!oneshot_gate_open(GateReading::Present));
    assert!(oneshot_gate_open(GateReading::Absent));
    assert!(oneshot_gate_open(GateReading::Unreadable));
}

#[test]
fn run_begins_with_controllers_and_gate() {
    let boot = Boot::new(config_fs());
    assert_eq!(boot.pending(), BootAction::ConnectControllers);
    let boot = boot.handle(BootEvent::Connected);
    assert_eq!(boot.pending(), BootAction::CheckOneshot);
}

#[test]
fn run_with_the_variable_set_looks_for_no_choice() {
    for config in [config_fs(), config_tftp()] {
        let mut boot = Boot::new(config).handle(BootEvent::Connected);
        boot = boot.handle(BootEvent::Gate(GateReading::Present));
        let mut lookups = 0;
        let events = vec![
            BootEvent::Connected,
            BootEvent::Gate(GateReading::Absent),
            BootEvent::Choice(Ok(Choice::NixosCurrent)),
            BootEvent::Generation(Ok("x".to_string())),
            BootEvent::OneshotWritten(true),
        ];
        assert_eq!(boot.pending(), default_chainload());
        for event in events {
            boot = boot.handle(event);
            if matches!(boot.pending(), BootAction::LookupFs | BootAction::LookupTftp { .. }) {
                lookups += 1;
            }
            assert_eq!(boot.pending(), default_chainload());
        }
        assert_eq!(lookups, 0);
        let boot = boot.handle(BootEvent::Chainloaded(Ok(())));
        assert_eq!(boot.pending(), BootAction::Exit(Ok(())));
    }
}

#[test]
fn run_with_the_variable_unset_looks_for_the_choice() {
    assert_eq!(at_lookup(config_fs()).pending(), BootAction::LookupFs);
    assert_eq!(
        at_lookup(config_tftp()).pending(),
        BootAction::LookupTftp { server: "10.0.0.1".to_string() }
    );
}

#[test]
fn run_goes_on_when_the_variable_store_cannot_be_read() {
    let boot = Boot::new(config_fs())
        .handle(BootEvent::Connected)
        .handle(BootEvent::Gate(GateReading::Unreadable));
    assert_eq!(boot.pending(), BootAction::LookupFs);
}

#[test]
fn run_without_a_server_looks_for_no_choice() {
    let mut config = config_tftp();
    config.tftp_ip = None;
    assert_eq!(at_lookup(config).pending(), default_chainload());
}

#[test]
fn chosen_entry_is_written_to_the_variable() {
    let boot = at_lookup(config_fs()).handle(BootEvent::Choice(Ok(Choice::Entry("5-linux".to_string()))));
    assert_eq!(
        boot.pending(),
        BootAction::WriteOneshot {
            entry_id: "5-linux".to_string(),
            data: vec![0x35, 0, 0x2d, 0, 0x6c, 0, 0x69, 0, 0x6e, 0, 0x75, 0, 0x78, 0, 0, 0],
        }
    );
    let boot = boot.handle(BootEvent::OneshotWritten(true));
    assert_eq!(boot.pending(), default_chainload());
}

#[test]
fn a_variable_that_cannot_be_written_does_not_stop_the_run() {
    let boot = at_lookup(config_fs())
        .handle(BootEvent::Choice(Ok(Choice::Entry("5-linux".to_string()))))
        .handle(BootEvent::OneshotWritten(false));
    assert_eq!(boot.pending(), default_chainload());
    let boot = boot.handle(BootEvent::Chainloaded(Ok(())));
    assert_eq!(boot.pending(), BootAction::Exit(Ok(())));
}

#[test]
fn newest_generation_is_resolved_and_written() {
    let boot = at_lookup(config_fs()).handle(BootEvent::Choice(Ok(Choice::NixosCurrent)));
    assert_eq!(boot.pending(), BootAction::ResolveGeneration);
    let boot = boot.handle(BootEvent::Generation(Ok("nixos-generation-42".to_string())));
    match boot.pending() {
        BootAction::WriteOneshot { entry_id, data } => {
            assert_eq!(entry_id, "nixos-generation-42");
            assert_eq!(data.len(), 2 * 19 + 2);
        }
        other => panic!("unexpected action {:?}", other),
    }
}

#[test]
fn newest_generation_that_is_not_found_writes_nothing() {
    for e in [GenerationResolutionError::NotFound, GenerationResolutionError::IoError] {
        let boot = at_lookup(config_fs())
            .handle(BootEvent::Choice(Ok(Choice::NixosCurrent)))
            .handle(BootEvent::Generation(Err(e)));
        assert_eq!(boot.pending(), default_chainload());
    }
}

#[test]
fn chosen_mode_has_its_loader_tried() {
    let boot = at_lookup(config_fs()).handle(BootEvent::Choice(Ok(Choice::Chainload("linux".to_string()))));
    assert_eq!(boot.pending(), BootAction::Chainload { target: "\\EFI\\Linux\\l.efi".to_string() });
    let boot = boot.handle(BootEvent::Chainloaded(Ok(())));
    assert_eq!(boot.pending(), BootAction::Exit(Ok(())));
}

#[test]
fn chosen_mode_whose_loader_fails_falls_back() {
    for e in [ChainloadError::Unsupported, ChainloadError::NotFound, ChainloadError::LoadError,
        ChainloadError::OutOfResources]
    {
        let boot = at_lookup(config_fs())
            .handle(BootEvent::Choice(Ok(Choice::Chainload("linux".to_string()))))
            .handle(BootEvent::Chainloaded(Err(e)));
        assert_eq!(boot.pending(), default_chainload());
        let boot = boot.handle(BootEvent::Chainloaded(Ok(())));
        assert_eq!(boot.pending(), BootAction::Exit(Ok(())));
    }
}

#[test]
fn chosen_mode_without_a_loader_falls_through() {
    let boot = at_lookup(config_fs()).handle(BootEvent::Choice(Ok(Choice::Chainload("windows".to_string()))));
    assert_eq!(boot.phase, Phase::Default);
    assert_eq!(boot.pending(), default_chainload());
    let boot = boot.handle(BootEvent::Chainloaded(Ok(())));
    assert_eq!(boot.pending(), BootAction::Exit(Ok(())));
}

#[test]
fn a_lookup_that_fails_leads_to_the_default_loader() {
    for e in [ChoiceLookupError::NotFound, ChoiceLookupError::IoError, ChoiceLookupError::ProtocolError,
        ChoiceLookupError::ParseError]
    {
        let boot = at_lookup(config_fs()).handle(BootEvent::Choice(Err(e)));
        assert_eq!(boot.pending(), default_chainload());
    }
}

#[test]
fn a_default_loader_that_fails_ends_the_run_with_its_error() {
    for e in [ChainloadError::Unsupported, ChainloadError::NotFound, ChainloadError::LoadError,
        ChainloadError::OutOfResources]
    {
        let boot = at_lookup(config_fs())
            .handle(BootEvent::Choice(Err(ChoiceLookupError::NotFound)))
            .handle(BootEvent::Chainloaded(Err(e)));
        assert_eq!(boot.pending(), BootAction::Exit(Err(e)));
        let boot = boot.handle(BootEvent::Chainloaded(Ok(())));
        assert_eq!(boot.pending(), BootAction::Exit(Err(e)));
    }
}

#[test]
fn run_passes_over_events_that_answer_nothing() {
    let boot = Boot::new(config_fs()).handle(BootEvent::Gate(GateReading::Present));
    assert_eq!(boot.pending(), BootAction::ConnectControllers);
    let boot = at_lookup(config_fs()).handle(BootEvent::Chainloaded(Ok(())));
    assert_eq!(boot.pending(), BootAction::LookupFs);
    let boot = boot.handle(BootEvent::OneshotWritten(true)).handle(BootEvent::Connected);
    assert_eq!(boot.pending(), BootAction::LookupFs);
}

#[test]
fn names_of_the_variable() {
    assert_eq!(ONESHOT_VAR_NAME, "LoaderEntryOneShot");
    assert_eq!(ONESHOT_VAR_VENDOR, "4a67b082-0a4c-41cf-b6c7-440b29bb8c4f");
    assert_eq!(ONESHOT_VAR_ATTRIBUTES, 0x2 | 0x4);
}
