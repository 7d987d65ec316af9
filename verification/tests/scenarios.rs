use email_sync::SyncError;
use email_sync::codec::decode;
use email_sync::controller::Controller;
use email_sync::cursor::{CursorState, load_cursor};
use email_sync::resolver::{Query, resolve};

#[test]
fn open_adopts_observed_token_when_absent() {
    let ctl = Controller::open(Some(7), &CursorState::Absent).unwrap();
    assert_eq!(ctl.validity, 7);
    assert_eq!(ctl.last_id, None);
}

#[test]
fn open_keeps_stored_last_id_on_matching_token() {
    let stored = CursorState::Present {
        validity: 7,
        last_id: 12,
    };
    let ctl = Controller::open(Some(7), &stored).unwrap();
    assert_eq!(ctl.validity, 7);
    assert_eq!(ctl.last_id, Some(12));
}

#[test]
fn open_without_observed_token_is_a_protocol_error() {
    assert_eq!(
        Controller::open(None, &CursorState::Absent),
        Err(SyncError::Protocol)
    );
}

#[test]
fn advance_returns_the_marker_to_persist() {
    let mut ctl = Controller::open(Some(7), &CursorState::Absent).unwrap();
    let marker = ctl.advance(10);
    assert_eq!(marker, [7, 0, 0, 0, 10, 0, 0, 0]);
    assert_eq!(ctl.last_id, Some(10));
    let marker = ctl.advance(12);
    assert_eq!(decode(&marker), Ok((7, 12)));
    assert_eq!(ctl.validity, 7);
}

/// First sync of a mailbox with no marker file: the remote reports validity
/// token 7 and three messages; afterwards the marker decodes to the last
/// identifier and the local store received every payload.
#[test]
fn first_sync_fetches_all_and_records_last_id() {
    let mut marker_file: Option<Vec<u8>> = None;
    let mut local_store: Vec<Vec<u8>> = Vec::new();

    let stored = load_cursor(marker_file.as_deref()).unwrap();
    assert_eq!(stored, CursorState::Absent);
    let mut ctl = Controller::open(Some(7), &stored).unwrap();
    assert_eq!(ctl.resolve(), Query::All);

    let fetched: Vec<(u32, Vec<u8>)> = vec![
        (10, b"first".to_vec()),
        (11, b"second".to_vec()),
        (12, b"third".to_vec()),
    ];
    for (id, payload) in &fetched {
        local_store.push(payload.clone());
        marker_file = Some(ctl.advance(*id).to_vec());
    }

    assert_eq!(local_store.len(), 3);
    assert_eq!(decode(marker_file.as_deref().unwrap()), Ok((7, 12)));
}

/// Incremental sync: a marker at (7, 12) and one new message 13; the
/// resolved query starts at 13, and the marker afterwards decodes to (7, 13).
#[test]
fn incremental_sync_advances_past_new_message() {
    let mut marker_file: Option<Vec<u8>> = Some(vec![7, 0, 0, 0, 12, 0, 0, 0]);
    let mut local_store: Vec<Vec<u8>> = Vec::new();

    let stored = load_cursor(marker_file.as_deref()).unwrap();
    let mut ctl = Controller::open(Some(7), &stored).unwrap();
    assert_eq!(ctl.resolve(), Query::Range { lo: 13 });

    let fetched: Vec<(u32, Vec<u8>)> = vec![(13, b"new".to_vec())];
    for (id, payload) in &fetched {
        local_store.push(payload.clone());
        marker_file = Some(ctl.advance(*id).to_vec());
    }

    assert_eq!(local_store.len(), 1);
    assert_eq!(decode(marker_file.as_deref().unwrap()), Ok((7, 13)));
}

/// A changed validity token must surface as `ValidityMismatch`, not as a
/// fetch against the new, incompatible identifier space.
#[test]
fn changed_validity_token_is_reported() {
    let marker_file: Option<Vec<u8>> = Some(vec![7, 0, 0, 0, 12, 0, 0, 0]);
    let stored = load_cursor(marker_file.as_deref()).unwrap();
    assert_eq!(
        Controller::open(Some(9), &stored),
        Err(SyncError::ValidityMismatch {
            stored: 7,
            observed: 9
        })
    );
}

/// An empty fetch result ends the pass: the marker file stays byte-for-byte
/// unchanged and the local store is never called.
#[test]
fn empty_fetch_leaves_marker_untouched() {
    let original = vec![7u8, 0, 0, 0, 12, 0, 0, 0];
    let mut marker_file: Option<Vec<u8>> = Some(original.clone());
    let mut local_store: Vec<Vec<u8>> = Vec::new();

    let stored = load_cursor(marker_file.as_deref()).unwrap();
    let mut ctl = Controller::open(Some(7), &stored).unwrap();
    assert_eq!(ctl.resolve(), Query::Range { lo: 13 });

    let fetched: Vec<(u32, Vec<u8>)> = Vec::new();
    for (id, payload) in &fetched {
        local_store.push(payload.clone());
        marker_file = Some(ctl.advance(*id).to_vec());
    }

    assert_eq!(local_store.len(), 0);
    assert_eq!(marker_file, Some(original));
}

/// Crash simulation: message 13 was stored but the process died before the
/// cursor advanced, so the marker still reads (7, 12). The next run's
/// resolved range must still cover 13 — at-least-once delivery.
#[test]
fn interrupted_advance_replays_the_message() {
    let marker_file: Option<Vec<u8>> = Some(vec![7, 0, 0, 0, 12, 0, 0, 0]);
    let mut local_store: Vec<Vec<u8>> = vec![b"stored but not advanced".to_vec()];

    let stored = load_cursor(marker_file.as_deref()).unwrap();
    let mut ctl = Controller::open(Some(7), &stored).unwrap();
    let q = ctl.resolve();
    assert_eq!(q, Query::Range { lo: 13 });
    let covered = match q {
        Query::All => true,
        Query::Range { lo } => lo <= 13,
    };
    assert!(covered);

    local_store.push(b"stored but not advanced".to_vec());
    let marker = ctl.advance(13);
    assert_eq!(decode(&marker), Ok((7, 13)));
}

#[test]
fn controller_resolve_matches_free_resolve() {
    let ctl = Controller::open(
        Some(3),
        &CursorState::Present {
            validity: 3,
            last_id: 41,
        },
    )
    .unwrap();
    assert_eq!(
        ctl.resolve(),
        resolve(&CursorState::Present {
            validity: 3,
            last_id: 41
        })
    );
}
