use schack::codec::{ProtocolError, MSG_SIZE};
use schack::session::{
    get_colour, AppWorker, ClickStep, InboundRecv, Piece, PieceColour, RemoteStep, Selection,
};
use schack::transport::{
    InboundStep, OutboundRecv, OutboundStep, SocketRead, TransportWorker,
};

fn padded(payload: &[u8]) -> Vec<u8> {
    let mut v = payload.to_vec();
    while v.len() < MSG_SIZE {
        v.push(0);
    }
    v
}

#[test]
fn no_data_delivers_nothing_that_cycle() {
    let mut w = TransportWorker::new();
    let step = w.poll_inbound(SocketRead::NoData);
    assert!(matches!(step, InboundStep::Idle));
    assert!(w.running);
}

#[test]
fn one_item_becomes_exactly_one_frame_write() {
    let mut w = TransportWorker::new();
    let step = w.poll_outbound(OutboundRecv::Item("e2 e4".to_string()));
    match step {
        OutboundStep::Write(frame) => assert_eq!(frame, padded(b"e2 e4")),
        _ => panic!("expected exactly one frame write"),
    }
    assert!(w.running);
}

#[test]
fn oversized_item_is_rejected_unchanged() {
    let mut w = TransportWorker::new();
    let long = "x".repeat(MSG_SIZE);
    let step = w.poll_outbound(OutboundRecv::Item(long.clone()));
    match step {
        OutboundStep::Reject(m) => assert_eq!(m, long),
        _ => panic!("expected the item back, untouched"),
    }
}

#[test]
fn empty_outbound_channel_writes_nothing() {
    let mut w = TransportWorker::new();
    assert!(matches!(w.poll_outbound(OutboundRecv::Empty), OutboundStep::Idle));
    assert!(w.running);
}

#[test]
fn relayed_move_arrives_unchanged() {
    // Client A finalizes "e2 e4"; client B's next poll cycle delivers it.
    let mut app_a = AppWorker::new();
    let mut transport_a = TransportWorker::new();
    let mut transport_b = TransportWorker::new();
    let mut app_b = AppWorker::new();

    let msg = app_a.submit_local((1, 4), (3, 4));
    assert_eq!(msg, "e2 e4");

    let wire = match transport_a.poll_outbound(OutboundRecv::Item(msg)) {
        OutboundStep::Write(frame) => frame,
        _ => panic!("expected a frame write"),
    };

    let delivered = match transport_b.poll_inbound(SocketRead::Frame(wire)) {
        InboundStep::Deliver(m) => m,
        _ => panic!("expected a delivery"),
    };
    assert_eq!(delivered, "e2 e4");

    match app_b.poll_remote(InboundRecv::Message(delivered)) {
        RemoteStep::Apply(from, to) => {
            assert_eq!(from, (1, 4));
            assert_eq!(to, (3, 4));
        }
        _ => panic!("expected the move to be applied"),
    }
}

#[test]
fn push_into_dropped_channel_is_fatal() {
    let mut app = AppWorker::new();
    let _msg = app.submit_local((6, 0), (4, 0));
    let fatal = app.confirm_push(false);
    assert!(fatal);
    let ok = app.confirm_push(true);
    assert!(!ok);
}

#[test]
fn connection_reset_stops_the_worker_within_one_cycle() {
    let mut w = TransportWorker::new();
    let step = w.poll_inbound(SocketRead::Failed);
    assert!(matches!(step, InboundStep::Stop));
    assert!(!w.running);
}

#[test]
fn dropped_inbound_receiver_stops_the_worker() {
    let mut w = TransportWorker::new();
    let frame = padded(b"d2 d4");
    assert!(matches!(w.poll_inbound(SocketRead::Frame(frame)), InboundStep::Deliver(_)));
    w.confirm_delivery(false);
    assert!(!w.running);
}

#[test]
fn dropped_outbound_sender_stops_the_worker() {
    let mut w = TransportWorker::new();
    let step = w.poll_outbound(OutboundRecv::Disconnected);
    assert!(matches!(step, OutboundStep::Stop));
    assert!(!w.running);
}

#[test]
fn write_failure_does_not_stop_the_worker() {
    let mut w = TransportWorker::new();
    match w.poll_outbound(OutboundRecv::Item("a7 a5".to_string())) {
        OutboundStep::Write(_) => w.confirm_write(false),
        _ => panic!("expected a frame write"),
    }
    assert!(w.running);
}

#[test]
fn two_moves_are_written_in_enqueue_order() {
    let mut w = TransportWorker::new();
    let mut frames = Vec::new();
    for m in ["d2 d4", "g1 f3"] {
        match w.poll_outbound(OutboundRecv::Item(m.to_string())) {
            OutboundStep::Write(frame) => frames.push(frame),
            _ => panic!("expected a frame write"),
        }
    }
    assert_eq!(frames, vec![padded(b"d2 d4"), padded(b"g1 f3")]);
}

#[test]
fn corrupt_frame_is_dropped_alone() {
    let mut w = TransportWorker::new();
    let frame = padded(&[0xc3, 0x28]);
    let step = w.poll_inbound(SocketRead::Frame(frame));
    assert!(matches!(step, InboundStep::Reject(ProtocolError::InvalidEncoding)));
    assert!(w.running);
}

#[test]
fn malformed_message_is_dropped_and_session_lives_on() {
    let mut app = AppWorker::new();
    let step = app.poll_remote(InboundRecv::Message("e2e4".to_string()));
    assert!(matches!(step, RemoteStep::Reject(ProtocolError::MalformedMessage)));
    assert!(app.link_up);
}

#[test]
fn dead_transport_degrades_the_session_without_crashing() {
    let mut app = AppWorker::new();
    let step = app.poll_remote(InboundRecv::Disconnected);
    assert!(matches!(step, RemoteStep::Degraded));
    assert!(!app.link_up);
}

#[test]
fn empty_inbound_channel_applies_nothing() {
    let mut app = AppWorker::new();
    assert!(matches!(app.poll_remote(InboundRecv::Empty), RemoteStep::Idle));
    assert!(app.link_up);
}

#[test]
fn click_selects_then_plays_a_highlighted_move() {
    let mut sel = Selection::new();
    let step = sel.on_click(6, 4);
    assert!(matches!(step, ClickStep::Select((6, 4))));
    assert_eq!(sel.selected, Some((6, 4)));

    sel.set_highlights(vec![(5, 4), (4, 4)]);
    let step = sel.on_click(4, 4);
    match step {
        ClickStep::Play(from, to) => {
            assert_eq!(from, (6, 4));
            assert_eq!(to, (4, 4));
        }
        _ => panic!("expected the move to be played"),
    }
    assert_eq!(sel.selected, None);
    assert!(sel.highlighted.is_empty());
}

#[test]
fn clicking_the_selected_square_deselects_it() {
    let mut sel = Selection::new();
    sel.on_click(3, 3);
    let step = sel.on_click(3, 3);
    assert!(matches!(step, ClickStep::Deselect));
    assert_eq!(sel.selected, None);
}

#[test]
fn clicking_elsewhere_moves_the_selection() {
    let mut sel = Selection::new();
    sel.on_click(0, 0);
    sel.set_highlights(vec![(2, 0)]);
    let step = sel.on_click(5, 5);
    assert!(matches!(step, ClickStep::Select((5, 5))));
    assert_eq!(sel.selected, Some((5, 5)));
    assert!(sel.highlighted.is_empty());

    let mut sel2 = Selection::new();
    sel2.on_click(0, 0);
    sel2.reset();
    assert_eq!(sel2.selected, None);
}

#[test]
fn get_colour_reads_the_piece_colour() {
    assert_eq!(get_colour(Some(Piece::King(PieceColour::Black))), Some(PieceColour::Black));
    assert_eq!(get_colour(Some(Piece::Pawn(PieceColour::White))), Some(PieceColour::White));
    assert_eq!(get_colour(None), None);
}
