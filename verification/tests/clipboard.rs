use jellium_platform::wayland::clipboard::clipboard_available;
use jellium_platform::wayland::clipboard::clipboard_cleanup;
use jellium_platform::wayland::clipboard::clipboard_init;
use jellium_platform::wayland::clipboard::clipboard_read_text_async;
use jellium_platform::wayland::clipboard::display_lost;
use jellium_platform::wayland::clipboard::poll_step;
use jellium_platform::wayland::clipboard::received_text;
use jellium_platform::wayland::clipboard::ClipboardWorker;
use jellium_platform::wayland::clipboard::FdEvents;
use jellium_platform::wayland::clipboard::OfferMimes;
use jellium_platform::wayland::clipboard::Offers;
use jellium_platform::wayland::clipboard::PollOutcome;
use jellium_platform::wayland::clipboard::PollStep;
use jellium_platform::wayland::clipboard::ReadOutcome;

#[test]
fn the_best_text_type_is_asked_for() {
    let mut m = OfferMimes::default();
    assert_eq!(m.best(), None);
    m.observe("image/png");
    assert_eq!(m.best(), None);
    for (mime, best) in [
        ("TEXT", "TEXT"),
        ("STRING", "STRING"),
        ("UTF8_STRING", "UTF8_STRING"),
        ("text/plain", "text/plain"),
        ("text/plain;charset=utf-8", "text/plain;charset=utf-8"),
        ("TEXT", "text/plain;charset=utf-8"),
    ] {
        m.observe(mime);
        assert_eq!(m.best(), Some(best));
    }
}

#[test]
fn a_selection_claims_its_offer_and_gives_up_the_others() {
    let mut o = Offers::new();
    assert_eq!(o.start_receive(), None);
    o.data_offer(1);
    o.data_offer(2);
    o.data_offer(3);
    o.offer_mime(2, "text/plain");
    o.offer_mime(3, "TEXT");
    let mut given_up = o.selection(Some(2));
    given_up.sort();
    assert_eq!(given_up, vec![1, 3]);
    assert_eq!(o.start_receive(), Some((2, "text/plain")));
    o.offer_mime(2, "text/plain;charset=utf-8");
    assert_eq!(o.start_receive(), Some((2, "text/plain;charset=utf-8")));
    o.offer_mime(9, "TEXT");
    o.data_offer(4);
    // The current one first.
    assert_eq!(o.selection(None), vec![2, 4]);
    assert_eq!(o.start_receive(), None);
    assert_eq!(o.selection(Some(8)), Vec::<u32>::new());
    assert_eq!(o.start_receive(), None);
    assert_eq!(o.current.unwrap().id, 8);
}

#[test]
fn the_primary_selection_is_destroyed() {
    let mut o = Offers::new();
    o.data_offer(1);
    o.data_offer(2);
    assert_eq!(o.primary_selection(1), 1);
    assert_eq!(o.primary_selection(7), 7);
    o.selection(Some(2));
    o.data_offer(5);
    o.data_offer(6);
    let (mut gone, device) = o.finished();
    assert!(device);
    assert_eq!(gone.pop(), Some(2));
    gone.sort();
    assert_eq!(gone, vec![5, 6]);
    assert_eq!(o.finished(), (vec![], false));
    assert!(o.current.is_none() && o.pending.is_empty());
}

#[test]
fn an_announced_offer_starts_over() {
    let mut o = Offers::new();
    o.data_offer(1);
    o.offer_mime(1, "TEXT");
    o.data_offer(1);
    assert_eq!(o.selection(Some(1)), Vec::<u32>::new());
    assert_eq!(o.start_receive(), None);
}

#[test]
fn only_utf8_is_text() {
    assert_eq!(received_text("gr\u{fc}n".as_bytes()), "gr\u{fc}n");
    assert_eq!(received_text(&[0x66, 0xff]), "");
    assert_eq!(received_text(&[]), "");
}

#[test]
fn readers_are_answered_in_order() {
    let mut inst: Option<ClipboardWorker<u32>> = None;
    assert_eq!(clipboard_read_text_async(&mut inst, 1), Some(1));
    clipboard_init(&mut inst, false);
    assert!(!clipboard_available(&inst));
    clipboard_init(&mut inst, true);
    assert!(clipboard_available(&inst));
    assert_eq!(clipboard_read_text_async(&mut inst, 1), None);
    assert_eq!(clipboard_read_text_async(&mut inst, 2), None);
    clipboard_init(&mut inst, true);
    let w = inst.as_mut().unwrap();
    assert!(w.wake && w.wants_receive());
    assert!(w.promote(true).is_empty());
    assert!(!w.wants_receive());
    w.received(b"ab");
    w.received(b"c");
    assert_eq!(w.receive_done(), Some((1, String::from("abc"))));
    assert_eq!(w.receive_done(), None);
    w.received(b"late");
    assert!(w.promote(true).is_empty());
    w.received(&[0xff]);
    assert_eq!(w.receive_done(), Some((2, String::new())));
    assert!(!w.wants_receive());
}

#[test]
fn a_running_worker_leaves_nobody_waiting() {
    let mut inst: Option<ClipboardWorker<u32>> = None;
    assert!(clipboard_cleanup(&mut inst).is_empty());
    clipboard_init(&mut inst, true);
    for i in 1..5 {
        clipboard_read_text_async(&mut inst, i);
    }
    let w = inst.as_mut().unwrap();
    w.promote(true);
    assert_eq!(clipboard_cleanup(&mut inst), vec![1, 2, 3, 4]);
    assert!(inst.is_none());

    // Once the worker is over, whoever asks is neither answered nor returned.
    clipboard_init(&mut inst, true);
    clipboard_read_text_async(&mut inst, 5);
    assert_eq!(inst.as_mut().unwrap().drain(), vec![5]);
    assert!(inst.as_ref().unwrap().ended && clipboard_available(&inst));
    assert_eq!(clipboard_read_text_async(&mut inst, 6), None);
    assert_eq!(clipboard_cleanup(&mut inst), Vec::<u32>::new());
    assert!(inst.is_none());

    let mut w = ClipboardWorker::new();
    w.queued.push(7);
    w.queued.push(8);
    assert_eq!(w.promote(false), vec![7, 8]);
    assert!(!w.wants_receive());
}

#[test]
fn a_pipe_is_read_until_it_ends() {
    let ready = FdEvents { readable: true, lost: false };
    let mut w = ClipboardWorker::new();
    w.queued.push(7);
    w.wake = true;
    w.woken();
    assert!(!w.wake);
    assert_eq!(w.serve_active(ready, &vec![ReadOutcome::End]), None);
    w.promote(true);
    let first = vec![
        ReadOutcome::Bytes(b"ab".to_vec()),
        ReadOutcome::Interrupted,
        ReadOutcome::Bytes(b"c".to_vec()),
        ReadOutcome::WouldBlock,
        ReadOutcome::Bytes(b"unread".to_vec()),
    ];
    assert_eq!(w.serve_active(ready, &first), None);
    let idle = FdEvents { readable: false, lost: false };
    assert_eq!(w.serve_active(idle, &vec![ReadOutcome::End]), None);
    let rest = vec![ReadOutcome::Bytes(b"d".to_vec()), ReadOutcome::End];
    assert_eq!(w.serve_active(ready, &rest), Some((7, String::from("abcd"))));
    assert!(w.active.is_none());

    w.queued.push(8);
    w.promote(true);
    let both = FdEvents { readable: true, lost: true };
    let last = vec![ReadOutcome::Bytes(b"x".to_vec()), ReadOutcome::WouldBlock];
    assert_eq!(w.serve_active(both, &last), Some((8, String::from("x"))));
    w.queued.push(9);
    w.promote(true);
    assert_eq!(w.serve_active(ready, &vec![ReadOutcome::Failed]), Some((9, String::new())));
}

#[test]
fn the_worker_ends_with_its_display() {
    assert_eq!(poll_step(PollOutcome::Interrupted), PollStep::Again);
    assert_eq!(poll_step(PollOutcome::Failed), PollStep::Stop);
    assert_eq!(poll_step(PollOutcome::Ready), PollStep::Serve);
    let fd = |readable, lost| FdEvents { readable, lost };
    assert!(display_lost(fd(true, false), false));
    assert!(!display_lost(fd(true, false), true));
    assert!(!display_lost(fd(false, false), false));
    assert!(display_lost(fd(true, true), true));
}
