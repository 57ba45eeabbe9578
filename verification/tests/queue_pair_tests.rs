//! End-to-end scenarios for the queue-pair core: command fabrication, CID
//! allocation and routing, PRP construction, bounce staging, and the
//! buffer-strategy decision tree.

use nvme_queue_pair::handler::QueueHandler;
use nvme_queue_pair::issuer::collect_iovas;
use nvme_queue_pair::issuer::external_finish_actions;
use nvme_queue_pair::issuer::ExternalPlan;
use nvme_queue_pair::issuer::issue_in_prepare;
use nvme_queue_pair::issuer::issue_neither_command;
use nvme_queue_pair::issuer::issue_out_finish;
use nvme_queue_pair::issuer::issue_out_prepare;
use nvme_queue_pair::issuer::issue_raw_outcome;
use nvme_queue_pair::issuer::pages_for_bytes;
use nvme_queue_pair::issuer::IoStrategy;
use nvme_queue_pair::issuer::Issuer;
use nvme_queue_pair::issuer::RequestError;
use nvme_queue_pair::nvme::admin_cmd;
use nvme_queue_pair::pending::PendingCommands;
use nvme_queue_pair::nvme::Completion;
use nvme_queue_pair::nvme::Status;
use nvme_queue_pair::nvme::INVALID_PAGE_ADDR;
use nvme_queue_pair::prp::make_prp;
use nvme_queue_pair::prp::ScopedPages;

const IDENTIFY: u8 = 0x06;

fn completion_for(handler_sq: u16, cid: u16, status_code: u16) -> Completion {
    // Bit 0 of the on-wire status word is the phase tag; set it as a live
    // controller would on the first pass.
    Completion { sqhd: 1, sqid: handler_sq, cid, status: (status_code << 1) | 1 }
}

#[test]
fn no_data_command_round_trip() {
    let mut handler = QueueHandler::new(3);
    let mut cmd = issue_neither_command(admin_cmd(IDENTIFY));
    assert_eq!(cmd.dptr0, INVALID_PAGE_ADDR);
    assert_eq!(cmd.dptr1, INVALID_PAGE_ADDR);

    handler.handle_request(&mut cmd, 77);
    assert_eq!(handler.stats().issued, 1);

    let completion = completion_for(3, cmd.cid, 0);
    assert!(handler.completion_is_live(completion));
    let responder = handler.handle_completion(completion);
    assert_eq!(responder, 77);
    assert_eq!(handler.stats().completed, 1);

    let outcome = issue_raw_outcome(Some(completion));
    assert_eq!(outcome, Ok(completion));
}

#[test]
fn small_transfer_in_uses_one_page() {
    let data: Vec<u8> = (0u8..16).collect();
    let mut pages = ScopedPages::new(vec![0x4_0000], vec![0u8; 4096]);
    let cmd = admin_cmd(IDENTIFY);
    let (cmd, prp) = issue_in_prepare(cmd, &data, &mut pages, None);
    assert_eq!(cmd.dptr0, 0x4_0000);
    assert_eq!(cmd.dptr1, INVALID_PAGE_ADDR);
    assert!(prp.pages.is_none());
    for i in 0..16 {
        assert_eq!(pages.byte_at(i), i as u8);
    }
    assert_eq!(pages.byte_at(16), 0);
}

#[test]
fn two_page_transfer_out_round_trip() {
    // The bounce pages hold what the simulated controller wrote there.
    let mut controller_bytes = vec![0u8; 8192];
    for (i, b) in controller_bytes.iter_mut().enumerate() {
        *b = (i % 251) as u8;
    }
    let pages = ScopedPages::new(vec![0x8000, 0xA000], controller_bytes.clone());
    let (cmd, prp) = issue_out_prepare(admin_cmd(IDENTIFY), &pages, None);
    assert_eq!(cmd.dptr0, 0x8000);
    assert_eq!(cmd.dptr1, 0xA000);
    assert!(prp.pages.is_none());

    let mut out = vec![0u8; 8192];
    issue_out_finish(&pages, &mut out);
    assert_eq!(out, controller_bytes);
}

#[test]
fn three_page_transfer_builds_prp_list() {
    let pages = ScopedPages::new(vec![0x1000, 0x2000, 0x3000], vec![0u8; 3 * 4096]);
    let list_page = ScopedPages::new(vec![0x9000], vec![0u8; 4096]);
    let (cmd, prp) = issue_out_prepare(admin_cmd(IDENTIFY), &pages, Some(list_page));
    assert_eq!(cmd.dptr0, 0x1000);
    assert_eq!(cmd.dptr1, 0x9000);

    let held = prp.pages.as_ref().unwrap();
    // First 16 bytes: 0x2000 then 0x3000, little endian.
    let mut expected = vec![0u8; 16];
    expected[0] = 0x00;
    expected[1] = 0x20;
    expected[8] = 0x00;
    expected[9] = 0x30;
    for i in 0..16 {
        assert_eq!(held.byte_at(i), expected[i]);
    }
    // The rest of the PRP list page is untouched (zero here).
    for i in 16..4096 {
        assert_eq!(held.byte_at(i), 0);
    }
}

#[test]
fn direct_path_builds_prp_from_translations() {
    let issuer = Issuer::new(None, false);
    assert_eq!(issuer.select_strategy(false, true, 8192), IoStrategy::Direct);

    let translations = vec![Some(0x10_0000u64), Some(0x20_0000u64)];
    let iovas = collect_iovas(&translations).unwrap();
    let prp = make_prp(512, &iovas, None);
    assert_eq!(prp.dptr0, 0x10_0000 + 512);
    assert_eq!(prp.dptr1, 0x20_0000);
    assert!(prp.pages.is_none());
}

#[test]
fn untranslated_page_blocks_direct_path() {
    let translations = vec![Some(0x10_0000u64), None];
    assert!(collect_iovas(&translations).is_none());
}

#[test]
fn large_va_backed_transfer_pins() {
    let issuer = Issuer::new(Some(64 * 1024), true);
    assert_eq!(issuer.select_strategy(true, false, 2 * 1024 * 1024), IoStrategy::Pin);
    // At or below the threshold the transfer is double-buffered instead.
    assert_eq!(issuer.select_strategy(true, false, 64 * 1024), IoStrategy::DoubleBuffer);
}

#[test]
fn bounce_failure_falls_back_to_pin_only_with_partition() {
    let with_partition = Issuer::new(Some(64 * 1024), true);
    assert_eq!(with_partition.bounce_exhausted_fallback(true), Ok(()));
    assert_eq!(
        with_partition.bounce_exhausted_fallback(false),
        Err(RequestError::TooLarge)
    );
    let without_partition = Issuer::new(None, false);
    // No partition: the request surfaces as too large instead.
    assert_eq!(
        without_partition.bounce_exhausted_fallback(true),
        Err(RequestError::TooLarge)
    );
}

#[test]
fn external_plan_follows_the_decision_tree() {
    // Movable 2 MiB transfer over the threshold, partition present: pin.
    let issuer = Issuer::new(Some(64 * 1024), true);
    let plan = issuer.plan_external(0x02, false, 2 * 1024 * 1024, true, &vec![None; 512]);
    assert!(matches!(plan, ExternalPlan::PinFirst));

    // Not movable and fully translated: direct, carrying the IOVAs.
    let translations = vec![Some(0x10_0000u64), Some(0x20_0000u64)];
    let plan = issuer.plan_external(0x02, false, 8192, false, &translations);
    match plan {
        ExternalPlan::Direct(iovas) => assert_eq!(iovas, vec![0x10_0000, 0x20_0000]),
        _ => panic!("expected the direct path"),
    }

    // Small movable write: double buffer, copying the guest bytes in first.
    let plan = issuer.plan_external(0x01, false, 4096, true, &vec![None]);
    assert!(matches!(plan, ExternalPlan::TryBounce(true)));
    // A read stages through bounce pages without a copy-in.
    let plan = issuer.plan_external(0x02, false, 4096, true, &vec![None]);
    assert!(matches!(plan, ExternalPlan::TryBounce(false)));
}

#[test]
fn external_finish_copies_back_and_unpins() {
    // Bounce-staged read that succeeded: copy back; nothing to unpin.
    assert_eq!(external_finish_actions(0x02, true, false, true), (true, false));
    // Failed command: the guest never sees the bounce bytes.
    assert_eq!(external_finish_actions(0x02, true, false, false), (false, false));
    // Write command: nothing to copy back.
    assert_eq!(external_finish_actions(0x01, true, false, true), (false, false));
    // Pinned ranges are unpinned on every exit path.
    assert_eq!(external_finish_actions(0x02, false, true, false), (false, true));
}

#[test]
fn cid_reuse_changes_sequence_tag() {
    let mut handler = QueueHandler::new(1);
    let mut seen = Vec::new();
    for i in 0..1025u32 {
        let mut cmd = admin_cmd(IDENTIFY);
        handler.handle_request(&mut cmd, i as u64);
        seen.push(cmd.cid);
        let completion = completion_for(1, cmd.cid, 0);
        let responder = handler.handle_completion(completion);
        assert_eq!(responder, i as u64);
    }
    assert!(!handler.should_poll_completions());
    // Serial round trips reuse slot 0 every time; the high 6 bits rotate.
    for w in seen.windows(2) {
        assert_eq!(w[0] & 0x3FF, w[1] & 0x3FF);
        assert_ne!(w[0] >> 10, w[1] >> 10);
    }
    // After 64 reuses the tag wraps to its first value.
    assert_eq!(seen[0], seen[64]);
    assert_ne!(seen[0], seen[63]);
}

#[test]
fn full_table_blocks_requests_until_a_completion() {
    let mut handler = QueueHandler::new(1);
    let mut first_cid = 0u16;
    for i in 0..1024u64 {
        assert!(handler.can_accept_request(false));
        let mut cmd = admin_cmd(IDENTIFY);
        handler.handle_request(&mut cmd, i);
        if i == 0 {
            first_cid = cmd.cid;
        }
    }
    assert!(!handler.can_accept_request(false));
    // A full submission queue blocks intake as well.
    assert!(!handler.can_accept_request(true));

    let responder = handler.handle_completion(completion_for(1, first_cid, 0));
    assert_eq!(responder, 0);
    assert!(handler.can_accept_request(false));
}

#[test]
fn stale_completion_is_detected() {
    let mut handler = QueueHandler::new(1);
    let mut cmd = admin_cmd(IDENTIFY);
    handler.handle_request(&mut cmd, 9);
    let cid = cmd.cid;
    let responder = handler.handle_completion(completion_for(1, cid, 0));
    assert_eq!(responder, 9);

    let mut cmd2 = admin_cmd(IDENTIFY);
    handler.handle_request(&mut cmd2, 10);
    // Same slot, new tag: a completion bearing the old CID no longer routes.
    assert_eq!(cmd2.cid & 0x3FF, cid & 0x3FF);
    assert!(!handler.completion_is_live(completion_for(1, cid, 0)));
    assert!(handler.completion_is_live(completion_for(1, cmd2.cid, 0)));
    // A completion from another submission queue never routes.
    assert!(!handler.completion_is_live(completion_for(2, cmd2.cid, 0)));
}

#[test]
fn pending_table_assigns_slot_and_tag() {
    let mut table = PendingCommands::new();
    let mut first = admin_cmd(IDENTIFY);
    table.insert(&mut first, 5);
    // Slot 0 under tag 0: the very first CID is 0.
    assert_eq!(first.cid, 0);
    let mut second = admin_cmd(IDENTIFY);
    table.insert(&mut second, 6);
    // Slot 1, tag advanced by one stride.
    assert_eq!(second.cid, 1 | (1 << 10));
    assert!(!table.is_empty());
    assert!(!table.is_full());
    assert_eq!(table.remove(first.cid), 5);
    assert_eq!(table.remove(second.cid), 6);
    assert!(table.is_empty());
}

#[test]
fn handler_gone_maps_to_gone_error() {
    assert_eq!(issue_raw_outcome(None), Err(RequestError::Gone));
}

#[test]
fn nonzero_status_maps_to_nvme_error() {
    let completion = completion_for(1, 0, 0x285);
    match issue_raw_outcome(Some(completion)) {
        Err(RequestError::Nvme(e)) => assert_eq!(e.status(), Status(0x285)),
        other => panic!("expected an NVMe error, got {:?}", other),
    }
    assert_eq!(Status(0x285).code_type(), 0x2);
    assert_eq!(Status(0x085).code_type(), 0x0);
    assert_eq!(Status(0x185).code_type(), 0x1);
}

#[test]
fn empty_and_single_page_prp_entries() {
    let none = make_prp(0, &Vec::new(), None);
    assert_eq!(none.dptr0, INVALID_PAGE_ADDR);
    assert_eq!(none.dptr1, INVALID_PAGE_ADDR);

    let one = make_prp(12, &vec![0x7000], None);
    assert_eq!(one.dptr0, 0x7000 + 12);
    assert_eq!(one.dptr1, INVALID_PAGE_ADDR);
    assert!(one.pages.is_none());
}

#[test]
fn bounce_page_count_covers_length() {
    assert_eq!(pages_for_bytes(0), 0);
    assert_eq!(pages_for_bytes(1), 1);
    assert_eq!(pages_for_bytes(4096), 1);
    assert_eq!(pages_for_bytes(4097), 2);
    assert_eq!(pages_for_bytes(12288), 3);
}
