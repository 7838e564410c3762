use block_sync::config::Config;
use block_sync::cycle::begin_cycle;
use block_sync::errors::ImportError;
use block_sync::stages::after_seal_check;
use block_sync::stages::block_request;
use block_sync::stages::resolve_header_response;
use block_sync::stages::sealed_block_from_transactions;
use block_sync::stages::SealVerdict;
use block_sync::state::State;
use block_sync::types::BlockHeader;
use block_sync::types::ConsensusSeal;
use block_sync::types::HeightRange;
use block_sync::types::PeerId;
use block_sync::types::SealedBlock;
use block_sync::types::SealedBlockHeader;
use block_sync::types::SourcePeer;
use block_sync::types::Transaction;
use block_sync::wake::WakeSlot;
use block_sync::window::Window;

fn header_for(height: u32) -> SealedBlockHeader {
    SealedBlockHeader {
        entity: BlockHeader {
            height,
            da_height: height as u64,
            transactions_count: 2,
            application_hash: 1000 + height as u64,
        },
        consensus: ConsensusSeal { signature: vec![7, height as u8] },
    }
}

fn txs_for() -> Vec<Transaction> {
    vec![Transaction { bytes: vec![1] }, Transaction { bytes: vec![2] }]
}

#[derive(Default)]
struct Scenario {
    transport_error_at: Option<u32>,
    advertised_height: Option<(u32, u32)>,
    seal_error_at: Option<u32>,
    invalid_seal_at: Option<u32>,
    missing_txs_at: Option<u32>,
    exec_fail_at: Option<u32>,
    shutdown_during_da_at: Option<u32>,
}

/// Drives one import cycle through the library's decision functions the
/// way the asynchronous shell does, with the port outcomes scripted by
/// the scenario.
fn run_cycle(sc: &Scenario, state: &mut State) -> (u64, Option<ImportError>) {
    let mut cycle = match begin_cycle(state) {
        Some(c) => c,
        None => return (0, None),
    };
    while !cycle.is_done() {
        let h = cycle.current_height();

        let response: Result<Option<SourcePeer<SealedBlockHeader>>, ImportError> =
            if sc.transport_error_at == Some(h) {
                Err(ImportError::Transport(String::from("no peers available")))
            } else {
                let advertised = match sc.advertised_height {
                    Some((asked, got)) if asked == h => got,
                    _ => h,
                };
                Ok(Some(SourcePeer { peer_id: PeerId { id: 7 }, data: header_for(advertised) }))
            };
        let resolved = resolve_header_response(h, response);

        let outcome: Result<Option<SealedBlock>, ImportError> = match resolved {
            Err(e) => Err(e),
            Ok(None) => Ok(None),
            Ok(Some(sp)) => {
                let seal = if sc.seal_error_at == Some(h) {
                    Err(ImportError::ConsensusEvaluator(String::from("evaluator crashed")))
                } else {
                    Ok(sc.invalid_seal_at != Some(h))
                };
                match after_seal_check(seal) {
                    SealVerdict::Fail(e) => Err(e),
                    SealVerdict::Skip => Ok(None),
                    SealVerdict::Proceed => {
                        if sc.shutdown_during_da_at == Some(h) {
                            cycle.on_shutdown();
                            continue;
                        }
                        let request = block_request(&sp);
                        assert_eq!(request.peer_id, sp.peer_id);
                        assert_eq!(request.data.height, sp.data.entity.height);
                        let txs = if sc.missing_txs_at == Some(h) {
                            Ok(None)
                        } else {
                            Ok(Some(txs_for()))
                        };
                        sealed_block_from_transactions(sp.data, txs)
                    },
                }
            },
        };

        if let Some(block) = cycle.offer(outcome) {
            assert_eq!(block.block_height(), h);
            let result = if sc.exec_fail_at == Some(h) {
                Err(ImportError::Executor(String::from("execution failed")))
            } else {
                Ok(())
            };
            cycle.record_execution(state, result);
        }
    }
    cycle.finish(state)
}

#[test]
fn happy_path_commits_the_whole_range() {
    let mut state = State::new(Some(0), Some(3));
    let (count, err) = run_cycle(&Scenario::default(), &mut state);
    assert_eq!(count, 3);
    assert!(err.is_none());
    assert_eq!(state.committed_tip(), Some(3));
    assert!(state.failed_ranges().is_empty());
}

#[test]
fn consensus_rejection_closes_at_the_gap() {
    let mut state = State::new(Some(0), Some(3));
    let sc = Scenario { invalid_seal_at: Some(2), ..Scenario::default() };
    let (count, err) = run_cycle(&sc, &mut state);
    assert_eq!(count, 1);
    assert!(err.is_none());
    assert_eq!(state.committed_tip(), Some(1));
    assert!(!state.is_failed(1));
    assert!(state.is_failed(2));
    assert!(state.is_failed(3));
}

#[test]
fn transport_error_aborts_the_range() {
    let mut state = State::new(Some(0), Some(3));
    let sc = Scenario { transport_error_at: Some(2), ..Scenario::default() };
    let (count, err) = run_cycle(&sc, &mut state);
    assert_eq!(count, 1);
    assert!(matches!(err, Some(ImportError::Transport(_))));
    assert_eq!(state.committed_tip(), Some(1));
    assert!(state.is_failed(2));
    assert!(state.is_failed(3));
}

#[test]
fn evaluator_error_aborts_the_range() {
    let mut state = State::new(Some(0), Some(3));
    let sc = Scenario { seal_error_at: Some(2), ..Scenario::default() };
    let (count, err) = run_cycle(&sc, &mut state);
    assert_eq!(count, 1);
    assert!(matches!(err, Some(ImportError::ConsensusEvaluator(_))));
    assert_eq!(state.committed_tip(), Some(1));
}

#[test]
fn executor_failure_does_not_advance_the_tip() {
    let mut state = State::new(Some(0), Some(3));
    let sc = Scenario { exec_fail_at: Some(2), ..Scenario::default() };
    let (count, err) = run_cycle(&sc, &mut state);
    assert_eq!(count, 1);
    assert!(matches!(err, Some(ImportError::Executor(_))));
    assert_eq!(state.committed_tip(), Some(1));
    assert!(state.is_failed(2));
    assert!(state.is_failed(3));
}

#[test]
fn shutdown_during_da_wait_keeps_the_prefix() {
    let mut state = State::new(Some(0), Some(3));
    let sc = Scenario { shutdown_during_da_at: Some(2), ..Scenario::default() };
    let (count, err) = run_cycle(&sc, &mut state);
    assert_eq!(count, 1);
    assert!(err.is_none());
    assert_eq!(state.committed_tip(), Some(1));
    assert!(state.is_failed(2));
    assert!(state.is_failed(3));
    // With shutdown fired and no wake pending, the entry reports that the
    // cycle ended by shutdown, so a supervisor never enters another one.
    let mut wake = WakeSlot::new();
    assert!(!wake.take());
}

#[test]
fn height_mismatch_is_treated_as_missing() {
    let mut state = State::new(Some(0), Some(3));
    let sc = Scenario { advertised_height: Some((2, 5)), ..Scenario::default() };
    let (count, err) = run_cycle(&sc, &mut state);
    assert_eq!(count, 1);
    assert!(err.is_none());
    assert_eq!(state.committed_tip(), Some(1));
    assert!(state.is_failed(2));
    assert!(state.is_failed(3));
}

#[test]
fn missing_transactions_close_the_range_gracefully() {
    let mut state = State::new(Some(0), Some(2));
    let sc = Scenario { missing_txs_at: Some(1), ..Scenario::default() };
    let (count, err) = run_cycle(&sc, &mut state);
    assert_eq!(count, 0);
    assert!(err.is_none());
    assert_eq!(state.committed_tip(), Some(0));
    assert!(state.is_failed(1));
    assert!(state.is_failed(2));
}

#[test]
fn replaying_a_committed_range_yields_no_new_commits() {
    let mut state = State::new(Some(0), Some(3));
    let (count, _) = run_cycle(&Scenario::default(), &mut state);
    assert_eq!(count, 3);
    // Nothing is left between the committed and the observed tip, so the
    // next cycle is offered no range and commits nothing.
    let (count, err) = run_cycle(&Scenario::default(), &mut state);
    assert_eq!(count, 0);
    assert!(err.is_none());
    assert_eq!(state.committed_tip(), Some(3));
}

#[test]
fn retry_after_failure_clears_failed_heights() {
    let mut state = State::new(Some(0), Some(3));
    let sc = Scenario { invalid_seal_at: Some(2), ..Scenario::default() };
    let _ = run_cycle(&sc, &mut state);
    assert!(state.is_failed(2));
    let (count, err) = run_cycle(&Scenario::default(), &mut state);
    assert_eq!(count, 2);
    assert!(err.is_none());
    assert_eq!(state.committed_tip(), Some(3));
    assert!(!state.is_failed(2));
    assert!(!state.is_failed(3));
}

#[test]
fn commits_at_the_highest_possible_height() {
    let mut state = State::new(Some(u32::MAX - 1), Some(u32::MAX));
    let (count, err) = run_cycle(&Scenario::default(), &mut state);
    assert_eq!(count, 1);
    assert!(err.is_none());
    assert_eq!(state.committed_tip(), Some(u32::MAX));
    assert!(state.failed_ranges().is_empty());
}

#[test]
fn window_bounds_and_releases_in_order() {
    let mut w = Window::new(HeightRange { start: 1, end: 5 }, 2);
    assert!(w.can_issue());
    assert_eq!(w.issue(), 1);
    assert_eq!(w.issue(), 2);
    assert!(!w.can_issue());
    assert_eq!(w.release(), 1);
    assert!(w.can_issue());
    assert_eq!(w.issue(), 3);
    assert!(!w.can_issue());
    assert_eq!(w.release(), 2);
    assert_eq!(w.release(), 3);
    assert!(!w.has_in_flight());
}

#[test]
fn window_stops_issuing_past_the_range() {
    let mut w = Window::new(HeightRange { start: 1, end: 2 }, 10);
    assert_eq!(w.issue(), 1);
    assert_eq!(w.issue(), 2);
    assert!(!w.can_issue());
    assert!(w.has_in_flight());
    assert_eq!(w.release(), 1);
    assert_eq!(w.release(), 2);
    assert!(!w.can_issue());
}

#[test]
fn wake_notifications_coalesce() {
    let mut wake = WakeSlot::new();
    assert!(!wake.take());
    wake.notify_one();
    wake.notify_one();
    wake.notify_one();
    assert!(wake.take());
    assert!(!wake.take());
}

#[test]
fn config_defaults_to_ten_each() {
    let c = Config::default();
    assert_eq!(c.max_get_header_requests, 10);
    assert_eq!(c.max_get_txns_requests, 10);
}
