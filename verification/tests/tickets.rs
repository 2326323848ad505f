use ticket_ledger::contract::TicketContract;
use ticket_ledger::models::{LedgerError, Notification};

fn s(text: &str) -> String {
    text.to_string()
}

#[test]
fn test_issue_ticket() {
    let mut client = TicketContract::new();

    let ticket_id = s("TICKET1");
    let event_id = s("EVENT1");
    let owner = s("owner");

    let ticket = client.issue_ticket(ticket_id.clone(), event_id.clone(), owner.clone());

    assert_eq!(ticket.id, ticket_id);
    assert_eq!(ticket.event_id, event_id);
    assert_eq!(ticket.owner, owner);
    assert!(!ticket.is_used);
}

#[test]
fn test_get_ticket_existing() {
    let mut client = TicketContract::new();

    client.issue_ticket(s("TICKET2"), s("EVENT2"), s("owner"));
    let retrieved = client.get_ticket(s("TICKET2"));

    assert!(retrieved.is_some());
    assert!(client.get_ticket(s("TICKET3")).is_none());
}

#[test]
fn test_transfer_unauthorized() {
    let mut client = TicketContract::new();

    client.issue_ticket(s("TICKETX"), s("EVENTX"), s("owner"));

    let result = client.transfer_ticket(s("TICKETX"), s("attacker"), s("owner"));

    assert_eq!(result, Err(LedgerError::Unauthorized));
    assert_eq!(client.get_ticket_status(s("TICKETX")), Ok((s("owner"), false)));
    assert!(client.take_notifications().is_empty());
}

#[test]
fn test_multisig_escrow_success() {
    let mut client = TicketContract::new();

    let signers = vec![s("signer1"), s("signer2")];

    assert_eq!(client.set_escrow_signers(s("E1"), signers, 2), Ok(()));
    assert_eq!(client.approve_release(s("E1"), s("signer1")), Ok(()));
    assert_eq!(client.approve_release(s("E1"), s("signer2")), Ok(()));
    assert_eq!(client.approval_count(s("E1")), Ok(2));

    assert_eq!(client.distribute_escrow(s("E1"), s("destination")), Ok(()));
    assert_eq!(client.approval_count(s("E1")), Ok(0));
}

#[test]
fn test_multisig_escrow_threshold_not_met() {
    let mut client = TicketContract::new();

    let signers = vec![s("signer1"), s("signer2")];

    assert_eq!(client.set_escrow_signers(s("E2"), signers, 2), Ok(()));
    assert_eq!(client.approve_release(s("E2"), s("signer1")), Ok(()));

    assert_eq!(
        client.distribute_escrow(s("E2"), s("destination")),
        Err(LedgerError::ThresholdNotMet)
    );
    assert_eq!(client.approval_count(s("E2")), Ok(1));
}

#[test]
fn test_init_event() {
    let mut client = TicketContract::new();

    assert_eq!(client.register_event(s("EVENT99"), s("organizer")), Ok(()));

    assert!(client.is_authorized_validator(s("EVENT99"), s("organizer")));
    assert!(client.is_organizer(s("EVENT99"), s("organizer")));
    assert!(!client.is_organizer(s("EVENT99"), s("someone")));
    assert!(!client.is_organizer(s("EVENT98"), s("organizer")));
}

#[test]
fn test_register_event_twice_already_exists() {
    let mut client = TicketContract::new();
    assert_eq!(client.register_event(s("E"), s("first")), Ok(()));
    assert_eq!(client.register_event(s("E"), s("second")), Err(LedgerError::AlreadyExists));
    assert!(client.is_organizer(s("E"), s("first")));
    assert!(!client.is_organizer(s("E"), s("second")));
}

#[test]
fn test_add_validator() {
    let mut client = TicketContract::new();

    assert_eq!(client.register_event(s("EVENT10"), s("organizer")), Ok(()));
    assert!(!client.is_authorized_validator(s("EVENT10"), s("validator")));
    assert_eq!(client.add_validator(s("EVENT10"), s("organizer"), s("validator")), Ok(()));

    assert!(client.is_authorized_validator(s("EVENT10"), s("validator")));
    assert!(!client.is_authorized_validator(s("EVENT11"), s("validator")));
}

#[test]
fn test_add_validator_errors() {
    let mut client = TicketContract::new();
    assert_eq!(
        client.add_validator(s("E"), s("organizer"), s("validator")),
        Err(LedgerError::NotFound)
    );
    assert_eq!(client.register_event(s("E"), s("organizer")), Ok(()));
    assert_eq!(
        client.add_validator(s("E"), s("intruder"), s("intruder")),
        Err(LedgerError::Unauthorized)
    );
    assert!(!client.is_authorized_validator(s("E"), s("intruder")));
    assert_eq!(
        client.remove_validator(s("F"), s("organizer"), s("validator")),
        Err(LedgerError::NotFound)
    );
    assert_eq!(client.add_validator(s("E"), s("organizer"), s("validator")), Ok(()));
    assert_eq!(
        client.remove_validator(s("E"), s("validator"), s("validator")),
        Err(LedgerError::Unauthorized)
    );
    assert!(client.is_authorized_validator(s("E"), s("validator")));
}

#[test]
fn test_remove_validator() {
    let mut client = TicketContract::new();

    assert_eq!(client.register_event(s("EVENT11"), s("organizer")), Ok(()));
    assert_eq!(client.add_validator(s("EVENT11"), s("organizer"), s("validator")), Ok(()));
    assert!(client.is_authorized_validator(s("EVENT11"), s("validator")));

    assert_eq!(client.remove_validator(s("EVENT11"), s("organizer"), s("validator")), Ok(()));
    assert!(!client.is_authorized_validator(s("EVENT11"), s("validator")));

    assert_eq!(client.remove_validator(s("EVENT11"), s("organizer"), s("validator")), Ok(()));
    assert!(!client.is_authorized_validator(s("EVENT11"), s("validator")));
}

#[test]
fn test_remove_organizer_as_validator_keeps_authority() {
    let mut client = TicketContract::new();
    assert_eq!(client.register_event(s("E"), s("organizer")), Ok(()));
    assert_eq!(client.add_validator(s("E"), s("organizer"), s("organizer")), Ok(()));
    assert_eq!(client.remove_validator(s("E"), s("organizer"), s("organizer")), Ok(()));
    assert!(client.is_authorized_validator(s("E"), s("organizer")));
}

#[test]
fn test_is_authorized_validator_organizer() {
    let mut client = TicketContract::new();
    assert_eq!(client.register_event(s("EVENT12"), s("organizer")), Ok(()));
    assert!(client.is_authorized_validator(s("EVENT12"), s("organizer")));
}

#[test]
fn test_is_authorized_validator_unauthorized() {
    let mut client = TicketContract::new();
    assert_eq!(client.register_event(s("EVENT13"), s("organizer")), Ok(()));
    assert!(!client.is_authorized_validator(s("EVENT13"), s("random")));
}

#[test]
fn test_validate_ticket_success() {
    let mut client = TicketContract::new();

    assert_eq!(client.register_event(s("E1"), s("O")), Ok(()));
    client.issue_ticket(s("T1"), s("E1"), s("W"));

    let validated = client.validate_ticket(s("T1"), s("O")).unwrap();
    assert!(validated.is_used);
    assert_eq!(validated.id, s("T1"));
    assert_eq!(validated.event_id, s("E1"));
    assert_eq!(validated.owner, s("W"));

    let retrieved = client.get_ticket(s("T1"));
    assert!(retrieved.is_some());
    assert!(retrieved.unwrap().is_used);

    assert_eq!(client.validate_ticket(s("T1"), s("O")).unwrap_err(), LedgerError::AlreadyUsed);
}

#[test]
fn test_validate_ticket_with_gate_agent() {
    let mut client = TicketContract::new();
    assert_eq!(client.register_event(s("EVENT15"), s("organizer")), Ok(()));
    assert_eq!(client.add_validator(s("EVENT15"), s("organizer"), s("agent")), Ok(()));
    client.issue_ticket(s("TICKET15"), s("EVENT15"), s("owner"));

    let validated = client.validate_ticket(s("TICKET15"), s("agent")).unwrap();
    assert!(validated.is_used);
}

#[test]
fn test_validate_nonexistent_ticket() {
    let mut client = TicketContract::new();
    assert_eq!(client.register_event(s("EVENT16"), s("organizer")), Ok(()));
    assert_eq!(
        client.validate_ticket(s("NOEXIST"), s("organizer")).unwrap_err(),
        LedgerError::NotFound
    );
}

#[test]
fn test_validate_ticket_already_used() {
    let mut client = TicketContract::new();
    assert_eq!(client.register_event(s("EVENT17"), s("organizer")), Ok(()));
    assert_eq!(client.add_validator(s("EVENT17"), s("organizer"), s("agent")), Ok(()));
    client.issue_ticket(s("TICKET17"), s("EVENT17"), s("owner"));

    assert!(client.validate_ticket(s("TICKET17"), s("organizer")).is_ok());
    assert_eq!(
        client.validate_ticket(s("TICKET17"), s("organizer")).unwrap_err(),
        LedgerError::AlreadyUsed
    );
    assert_eq!(
        client.validate_ticket(s("TICKET17"), s("agent")).unwrap_err(),
        LedgerError::AlreadyUsed
    );
    assert_eq!(
        client.validate_ticket(s("TICKET17"), s("stranger")).unwrap_err(),
        LedgerError::AlreadyUsed
    );
}

#[test]
fn test_validate_ticket_unauthorized_validator() {
    let mut client = TicketContract::new();
    assert_eq!(client.register_event(s("EVENT18"), s("organizer")), Ok(()));
    client.issue_ticket(s("TICKET18"), s("EVENT18"), s("owner"));

    assert_eq!(
        client.validate_ticket(s("TICKET18"), s("unauthorized")).unwrap_err(),
        LedgerError::Unauthorized
    );
    assert_eq!(client.get_ticket_status(s("TICKET18")), Ok((s("owner"), false)));
    assert!(client.take_notifications().is_empty());
}

#[test]
fn test_validate_ticket_of_unregistered_event_is_unauthorized() {
    let mut client = TicketContract::new();
    client.issue_ticket(s("T"), s("NOEVENT"), s("owner"));
    assert_eq!(client.validate_ticket(s("T"), s("anyone")).unwrap_err(), LedgerError::Unauthorized);
}

#[test]
fn test_validate_ticket_emits_event() {
    let mut client = TicketContract::new();
    assert_eq!(client.register_event(s("EVENT19"), s("organizer")), Ok(()));
    client.issue_ticket(s("TICKET19"), s("EVENT19"), s("owner"));

    assert!(client.validate_ticket(s("TICKET19"), s("organizer")).is_ok());

    let events = client.take_notifications();
    assert!(!events.is_empty(), "CheckInEvent should have been emitted");
    assert_eq!(events.len(), 1);
    match &events[0] {
        Notification::CheckIn { ticket_id, validator, event_id } => {
            assert_eq!(ticket_id, "TICKET19");
            assert_eq!(validator, "organizer");
            assert_eq!(event_id, "EVENT19");
        }
        other => panic!("unexpected notification {:?}", other),
    }
    assert!(client.take_notifications().is_empty());
}

#[test]
fn test_is_ticket_owner_correct_owner() {
    let mut client = TicketContract::new();
    client.issue_ticket(s("TICKET9"), s("EVENT9"), s("owner"));
    assert_eq!(client.is_ticket_owner(s("TICKET9"), s("owner")), Ok(true));
}

#[test]
fn test_is_ticket_owner_wrong_owner() {
    let mut client = TicketContract::new();
    client.issue_ticket(s("TICKETA"), s("EVENTA"), s("owner"));
    assert_eq!(client.is_ticket_owner(s("TICKETA"), s("other")), Ok(false));
}

#[test]
fn test_is_ticket_owner_nonexistent() {
    let client = TicketContract::new();
    assert_eq!(client.is_ticket_owner(s("NOEXIST"), s("address")), Err(LedgerError::NotFound));
}

#[test]
fn test_get_ticket_status_not_used() {
    let mut client = TicketContract::new();
    client.issue_ticket(s("TICKETB"), s("EVENTB"), s("owner"));
    assert_eq!(client.get_ticket_status(s("TICKETB")), Ok((s("owner"), false)));
}

#[test]
fn test_get_ticket_status_after_use() {
    let mut client = TicketContract::new();
    assert_eq!(client.register_event(s("EVENTC"), s("organizer")), Ok(()));
    client.issue_ticket(s("TICKETC"), s("EVENTC"), s("owner"));
    assert!(client.validate_ticket(s("TICKETC"), s("organizer")).is_ok());
    assert_eq!(client.get_ticket_status(s("TICKETC")), Ok((s("owner"), true)));
}

#[test]
fn test_get_ticket_status_after_transfer() {
    let mut client = TicketContract::new();
    client.issue_ticket(s("TICKETD"), s("EVENTD"), s("owner"));
    assert_eq!(client.transfer_ticket(s("TICKETD"), s("owner"), s("new_owner")), Ok(()));

    let (status_owner, is_used) = client.get_ticket_status(s("TICKETD")).unwrap();

    assert_eq!(status_owner, s("new_owner"));
    assert!(!is_used);
}

#[test]
fn test_get_ticket_status_nonexistent() {
    let client = TicketContract::new();
    assert_eq!(client.get_ticket_status(s("NOEXIST")), Err(LedgerError::NotFound));
}

#[test]
fn test_multiple_validators_for_event() {
    let mut client = TicketContract::new();
    assert_eq!(client.register_event(s("EVENT20"), s("organizer")), Ok(()));
    assert_eq!(client.add_validator(s("EVENT20"), s("organizer"), s("validator1")), Ok(()));
    assert_eq!(client.add_validator(s("EVENT20"), s("organizer"), s("validator2")), Ok(()));

    assert!(client.is_authorized_validator(s("EVENT20"), s("validator1")));
    assert!(client.is_authorized_validator(s("EVENT20"), s("validator2")));
}

#[test]
fn test_transfer_of_used_ticket_keeps_it_used() {
    let mut client = TicketContract::new();
    assert_eq!(client.register_event(s("E1"), s("O")), Ok(()));
    client.issue_ticket(s("T1"), s("E1"), s("W"));
    assert!(client.validate_ticket(s("T1"), s("O")).is_ok());
    assert_eq!(client.transfer_ticket(s("T1"), s("W"), s("W2")), Ok(()));
    assert_eq!(client.get_ticket_status(s("T1")), Ok((s("W2"), true)));
    assert_eq!(client.validate_ticket(s("T1"), s("O")).unwrap_err(), LedgerError::AlreadyUsed);
    assert_eq!(client.transfer_ticket(s("T1"), s("W"), s("W3")), Err(LedgerError::Unauthorized));
    assert_eq!(client.transfer_ticket(s("T9"), s("W"), s("W3")), Err(LedgerError::NotFound));

    let sent = client.take_notifications();
    assert_eq!(sent.len(), 2);
    match &sent[1] {
        Notification::Transfer { ticket_id, from, to } => {
            assert_eq!(ticket_id, "T1");
            assert_eq!(from, "W");
            assert_eq!(to, "W2");
        }
        other => panic!("unexpected notification {:?}", other),
    }
}

#[test]
fn test_reissue_replaces_ticket() {
    let mut client = TicketContract::new();
    assert_eq!(client.register_event(s("E1"), s("O")), Ok(()));
    client.issue_ticket(s("T1"), s("E1"), s("W"));
    assert!(client.validate_ticket(s("T1"), s("O")).is_ok());
    let again = client.issue_ticket(s("T1"), s("E1"), s("V"));
    assert!(!again.is_used);
    assert_eq!(client.get_ticket_status(s("T1")), Ok((s("V"), false)));
}

#[test]
fn test_escrow_quorum_is_single_use() {
    let mut client = TicketContract::new();
    assert_eq!(client.set_escrow_signers(s("E2"), vec![s("S1"), s("S2")], 2), Ok(()));
    assert_eq!(client.approve_release(s("E2"), s("S1")), Ok(()));
    assert_eq!(client.distribute_escrow(s("E2"), s("D")), Err(LedgerError::ThresholdNotMet));
    assert_eq!(client.approve_release(s("E2"), s("S2")), Ok(()));
    assert_eq!(client.distribute_escrow(s("E2"), s("D")), Ok(()));
    assert_eq!(client.distribute_escrow(s("E2"), s("D")), Err(LedgerError::ThresholdNotMet));

    let sent = client.take_notifications();
    assert_eq!(sent.len(), 1);
    match &sent[0] {
        Notification::Release { event_id, destination } => {
            assert_eq!(event_id, "E2");
            assert_eq!(destination, "D");
        }
        other => panic!("unexpected notification {:?}", other),
    }
}

#[test]
fn test_set_escrow_signers_invalid_threshold() {
    let mut client = TicketContract::new();
    assert_eq!(
        client.set_escrow_signers(s("E"), vec![s("S1"), s("S2")], 0),
        Err(LedgerError::InvalidThreshold)
    );
    assert_eq!(
        client.set_escrow_signers(s("E"), vec![s("S1"), s("S2")], 3),
        Err(LedgerError::InvalidThreshold)
    );
    assert_eq!(client.set_escrow_signers(s("E"), vec![], 1), Err(LedgerError::InvalidThreshold));
    assert_eq!(client.approval_count(s("E")), Err(LedgerError::NotFound));
    assert_eq!(client.set_escrow_signers(s("E"), vec![s("S1"), s("S2")], 1), Ok(()));
    assert_eq!(client.approval_count(s("E")), Ok(0));
}

#[test]
fn test_approve_release_errors() {
    let mut client = TicketContract::new();
    assert_eq!(client.approve_release(s("E"), s("S1")), Err(LedgerError::NotFound));
    assert_eq!(client.distribute_escrow(s("E"), s("D")), Err(LedgerError::NotFound));
    assert_eq!(client.set_escrow_signers(s("E"), vec![s("S1"), s("S2")], 1), Ok(()));
    assert_eq!(client.approve_release(s("E"), s("S3")), Err(LedgerError::Unauthorized));
    assert_eq!(client.approval_count(s("E")), Ok(0));
    assert_eq!(client.approve_release(s("E"), s("S1")), Ok(()));
    assert_eq!(client.approve_release(s("E"), s("S1")), Ok(()));
    assert_eq!(client.approval_count(s("E")), Ok(1));
}

#[test]
fn test_revoke_approval() {
    let mut client = TicketContract::new();
    assert_eq!(client.set_escrow_signers(s("E"), vec![s("S1"), s("S2")], 2), Ok(()));
    assert_eq!(client.approve_release(s("E"), s("S1")), Ok(()));
    assert_eq!(client.approve_release(s("E"), s("S2")), Ok(()));
    client.revoke_approval(s("E"), s("S1"));
    assert_eq!(client.approval_count(s("E")), Ok(1));
    assert_eq!(client.distribute_escrow(s("E"), s("D")), Err(LedgerError::ThresholdNotMet));
    client.revoke_approval(s("E"), s("S1"));
    client.revoke_approval(s("X"), s("S1"));
    assert_eq!(client.approval_count(s("E")), Ok(1));
    assert_eq!(client.approve_release(s("E"), s("S1")), Ok(()));
    assert_eq!(client.distribute_escrow(s("E"), s("D")), Ok(()));
}

#[test]
fn test_reconfiguration_keeps_approvals() {
    let mut client = TicketContract::new();
    assert_eq!(client.set_escrow_signers(s("E"), vec![s("S1"), s("S2")], 2), Ok(()));
    assert_eq!(client.approve_release(s("E"), s("S1")), Ok(()));
    assert_eq!(client.set_escrow_signers(s("E"), vec![s("S1"), s("S3")], 1), Ok(()));
    assert_eq!(client.approval_count(s("E")), Ok(1));
    assert_eq!(client.distribute_escrow(s("E"), s("D")), Ok(()));
    assert_eq!(client.approval_count(s("E")), Ok(0));
}

#[test]
fn test_release_clears_only_its_own_event() {
    let mut client = TicketContract::new();
    assert_eq!(client.set_escrow_signers(s("A"), vec![s("S1")], 1), Ok(()));
    assert_eq!(client.set_escrow_signers(s("B"), vec![s("S1")], 1), Ok(()));
    assert_eq!(client.approve_release(s("A"), s("S1")), Ok(()));
    assert_eq!(client.approve_release(s("B"), s("S1")), Ok(()));
    assert_eq!(client.distribute_escrow(s("A"), s("D")), Ok(()));
    assert_eq!(client.approval_count(s("A")), Ok(0));
    assert_eq!(client.approval_count(s("B")), Ok(1));
}

#[test]
fn test_signer_listed_twice_counts_twice() {
    let mut client = TicketContract::new();
    assert_eq!(client.set_escrow_signers(s("E"), vec![s("S1"), s("S1")], 2), Ok(()));
    assert_eq!(client.approve_release(s("E"), s("S1")), Ok(()));
    assert_eq!(client.approval_count(s("E")), Ok(2));
    assert_eq!(client.distribute_escrow(s("E"), s("D")), Ok(()));
}

#[test]
fn test_transfer_by_owner_then_by_stranger() {
    let mut client = TicketContract::new();
    client.issue_ticket(s("T1"), s("E1"), s("W"));
    assert_eq!(client.transfer_ticket(s("T1"), s("W"), s("W2")), Ok(()));
    assert_eq!(client.get_ticket_status(s("T1")), Ok((s("W2"), false)));
    assert_eq!(client.is_ticket_owner(s("T1"), s("W2")), Ok(true));
    assert_eq!(client.is_ticket_owner(s("T1"), s("W")), Ok(false));
    assert_eq!(client.transfer_ticket(s("T1"), s("W"), s("W3")), Err(LedgerError::Unauthorized));
    assert_eq!(client.get_ticket_status(s("T1")), Ok((s("W2"), false)));
}

#[test]
fn test_stale_approval_survives_release_without_counting() {
    let mut client = TicketContract::new();
    assert_eq!(client.set_escrow_signers(s("E"), vec![s("S1"), s("S2")], 1), Ok(()));
    assert_eq!(client.approve_release(s("E"), s("S2")), Ok(()));
    assert_eq!(client.set_escrow_signers(s("E"), vec![s("S1")], 1), Ok(()));
    assert_eq!(client.approval_count(s("E")), Ok(0));
    assert_eq!(client.distribute_escrow(s("E"), s("D")), Err(LedgerError::ThresholdNotMet));
    assert_eq!(client.approve_release(s("E"), s("S1")), Ok(()));
    assert_eq!(client.distribute_escrow(s("E"), s("D")), Ok(()));
    assert_eq!(client.set_escrow_signers(s("E"), vec![s("S1"), s("S2")], 1), Ok(()));
    assert_eq!(client.approval_count(s("E")), Ok(1));
}
