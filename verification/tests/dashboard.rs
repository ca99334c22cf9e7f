use skylar::app::{App, AppState, TickOutcome, TICK_MILLIS};
use skylar::events::{command, Command, KeyCode, KeyEvent};
use skylar::metrics::MetricsSnapshot;
use skylar::tabs::SelectedTab;

fn snapshot(queries: u64) -> MetricsSnapshot {
    MetricsSnapshot {
        queries_num: queries,
        queries_iter_num: 0,
        errors_num: 0,
        errors_iter_num: 0,
        latency_avg_ms: None,
        latency_percentile_ms: None,
    }
}

fn press(code: KeyCode) -> Option<KeyEvent> {
    Some(KeyEvent { code, control: false, pressed: true })
}

#[test]
fn new_dashboard_is_empty_and_running() {
    let app = App::new();
    assert_eq!(app.state(), AppState::Running);
    assert_eq!(app.selected_tab(), SelectedTab::Metrics);
    assert_eq!(app.queries_num().len(), 0);
    assert_eq!(app.queries_iter_num().len(), 0);
    assert_eq!(app.errors_num().len(), 0);
    assert_eq!(app.errors_iter_num().len(), 0);
    assert_eq!(app.latency_avg_ms().len(), 0);
    assert_eq!(app.latency_percentile_ms().len(), 0);
    assert_eq!(app.read_logs().len(), 0);
    assert_eq!(app.previous_counters(), (0, 0, 0, 0));
    assert_eq!(app.cpu_usage(), 0);
    assert_eq!(app.memory_usage(), 0);
}

#[test]
fn rate_is_the_growth_of_the_counter() {
    let mut app = App::new();
    app.update_metrics(&snapshot(100));
    app.update_metrics(&snapshot(150));
    assert_eq!(app.queries_num().entries(), &vec![100, 50]);
    assert_eq!(app.previous_counters().0, 150);
}

#[test]
fn each_counter_has_its_own_rate() {
    let mut app = App::new();
    app.update_metrics(&MetricsSnapshot {
        queries_num: 10,
        queries_iter_num: 20,
        errors_num: 3,
        errors_iter_num: 4,
        latency_avg_ms: Some(12),
        latency_percentile_ms: Some(99),
    });
    app.update_metrics(&MetricsSnapshot {
        queries_num: 15,
        queries_iter_num: 60,
        errors_num: 3,
        errors_iter_num: 5,
        latency_avg_ms: Some(8),
        latency_percentile_ms: None,
    });
    assert_eq!(app.queries_num().entries(), &vec![10, 5]);
    assert_eq!(app.queries_iter_num().entries(), &vec![20, 40]);
    assert_eq!(app.errors_num().entries(), &vec![3, 0]);
    assert_eq!(app.errors_iter_num().entries(), &vec![4, 1]);
    assert_eq!(app.previous_counters(), (15, 60, 3, 5));
}

#[test]
fn latencies_pass_through_and_default_to_zero() {
    let mut app = App::new();
    let mut metrics = snapshot(1);
    metrics.latency_avg_ms = Some(12);
    metrics.latency_percentile_ms = Some(340);
    app.update_metrics(&metrics);
    metrics.latency_avg_ms = None;
    metrics.latency_percentile_ms = Some(20);
    app.update_metrics(&metrics);
    metrics.latency_avg_ms = Some(5);
    metrics.latency_percentile_ms = None;
    app.update_metrics(&metrics);
    assert_eq!(app.latency_avg_ms().entries(), &vec![12, 0, 5]);
    assert_eq!(app.latency_percentile_ms().entries(), &vec![340, 20, 0]);
}

#[test]
fn histories_keep_the_last_100_ticks() {
    let mut app = App::new();
    let mut total = 0;
    for tick in 1..=150u64 {
        total += tick;
        let mut metrics = snapshot(total);
        metrics.latency_avg_ms = Some(tick);
        app.update_metrics(&metrics);
    }
    let expected: Vec<u64> = (51..=150).collect();
    assert_eq!(app.queries_num().entries(), &expected);
    assert_eq!(app.latency_avg_ms().entries(), &expected);
    assert_eq!(app.queries_iter_num().entries(), &vec![0; 100]);
    assert_eq!(app.latency_percentile_ms().len(), 100);
}

#[test]
fn a_counter_that_went_back_does_not_follow() {
    let mut app = App::new();
    app.update_metrics(&snapshot(150));
    assert!(app.follows(&snapshot(150)));
    assert!(app.follows(&snapshot(151)));
    assert!(!app.follows(&snapshot(149)));
    let mut errors_back = snapshot(200);
    errors_back.errors_num = 1;
    app.update_metrics(&errors_back);
    assert!(!app.follows(&snapshot(300)));
}

#[test]
fn system_load_is_stored_as_given() {
    let mut app = App::new();
    app.update_system(37, 81);
    assert_eq!(app.cpu_usage(), 37);
    assert_eq!(app.memory_usage(), 81);
    app.update_system(0, 100);
    assert_eq!(app.cpu_usage(), 0);
    assert_eq!(app.memory_usage(), 100);
}

#[test]
fn sample_log_keeps_the_last_100_rows() {
    let mut app = App::new();
    let rows: Vec<String> = (1..=150).map(|i| format!("row {}", i)).collect();
    app.record_samples(rows[..70].to_vec());
    assert_eq!(app.read_logs().entries().as_slice(), &rows[..70]);
    app.record_samples(rows[70..].to_vec());
    assert_eq!(app.read_logs().entries().as_slice(), &rows[50..]);
}

#[test]
fn refresh_takes_in_metrics_load_and_samples() {
    let mut app = App::new();
    app.refresh(&snapshot(40), 12, 34, vec!["a".to_string(), "b".to_string()]);
    app.refresh(&snapshot(45), 56, 78, vec!["c".to_string()]);
    assert_eq!(app.queries_num().entries(), &vec![40, 5]);
    assert_eq!(app.cpu_usage(), 56);
    assert_eq!(app.memory_usage(), 78);
    assert_eq!(
        app.read_logs().entries(),
        &vec!["a".to_string(), "b".to_string(), "c".to_string()]
    );
}

#[test]
fn previous_tab_on_the_first_tab_is_a_no_op() {
    let mut app = App::new();
    assert_eq!(app.selected_tab(), SelectedTab::Metrics);
    app.previous_tab();
    assert_eq!(app.selected_tab(), SelectedTab::Metrics);
}

#[test]
fn next_tab_on_the_last_tab_is_a_no_op() {
    let mut app = App::new();
    app.next_tab();
    assert_eq!(app.selected_tab(), SelectedTab::Samples);
    app.next_tab();
    assert_eq!(app.selected_tab(), SelectedTab::System);
    app.next_tab();
    assert_eq!(app.selected_tab(), SelectedTab::System);
    app.previous_tab();
    assert_eq!(app.selected_tab(), SelectedTab::Samples);
}

#[test]
fn quit_asks_for_cancellation() {
    let mut app = App::new();
    app.next_tab();
    app.update_system(3, 4);
    assert!(app.quit());
    assert_eq!(app.state(), AppState::Quitting);
    assert_eq!(app.selected_tab(), SelectedTab::Samples);
    assert_eq!((app.cpu_usage(), app.memory_usage()), (3, 4));
    // Quitting again asks again and changes nothing.
    assert!(app.quit());
    assert_eq!(app.state(), AppState::Quitting);
}

#[test]
fn quit_is_final() {
    let mut app = App::new();
    app.quit();
    assert_eq!(app.state(), AppState::Quitting);
    app.next_tab();
    app.handle_events(press(KeyCode::Char('l')));
    app.update_system(1, 2);
    assert_eq!(app.state(), AppState::Quitting);
    assert_eq!(app.end_tick(false), TickOutcome::Exit);
}

#[test]
fn keys_stand_for_commands() {
    assert_eq!(command(press(KeyCode::Char('l'))), Some(Command::NextTab));
    assert_eq!(command(press(KeyCode::Right)), Some(Command::NextTab));
    assert_eq!(command(press(KeyCode::Char('h'))), Some(Command::PreviousTab));
    assert_eq!(command(press(KeyCode::Left)), Some(Command::PreviousTab));
    assert_eq!(command(press(KeyCode::Char('q'))), Some(Command::Quit));
    assert_eq!(command(press(KeyCode::Esc)), Some(Command::Quit));
    let control_c = KeyEvent { code: KeyCode::Char('c'), control: true, pressed: true };
    assert_eq!(command(Some(control_c)), Some(Command::Quit));
}

#[test]
fn other_input_stands_for_nothing() {
    assert_eq!(command(None), None);
    assert_eq!(command(press(KeyCode::Char('c'))), None);
    assert_eq!(command(press(KeyCode::Char('L'))), None);
    assert_eq!(command(press(KeyCode::Char('x'))), None);
    assert_eq!(command(press(KeyCode::Other)), None);
    let released = KeyEvent { code: KeyCode::Char('q'), control: false, pressed: false };
    assert_eq!(command(Some(released)), None);
    let released = KeyEvent { code: KeyCode::Esc, control: true, pressed: false };
    assert_eq!(command(Some(released)), None);
}

#[test]
fn control_does_not_change_the_other_keys() {
    let control_l = KeyEvent { code: KeyCode::Char('l'), control: true, pressed: true };
    assert_eq!(command(Some(control_l)), Some(Command::NextTab));
    let control_q = KeyEvent { code: KeyCode::Char('q'), control: true, pressed: true };
    assert_eq!(command(Some(control_q)), Some(Command::Quit));
}

#[test]
fn handling_events_moves_between_tabs() {
    let mut app = App::new();
    assert!(!app.handle_events(press(KeyCode::Char('l'))));
    assert_eq!(app.selected_tab(), SelectedTab::Samples);
    assert!(!app.handle_events(press(KeyCode::Right)));
    assert_eq!(app.selected_tab(), SelectedTab::System);
    assert!(!app.handle_events(press(KeyCode::Right)));
    assert_eq!(app.selected_tab(), SelectedTab::System);
    assert!(!app.handle_events(press(KeyCode::Char('h'))));
    assert_eq!(app.selected_tab(), SelectedTab::Samples);
    assert!(!app.handle_events(press(KeyCode::Left)));
    assert!(!app.handle_events(press(KeyCode::Left)));
    assert_eq!(app.selected_tab(), SelectedTab::Metrics);
    assert!(!app.handle_events(None));
    assert!(!app.handle_events(press(KeyCode::Other)));
    assert_eq!(app.selected_tab(), SelectedTab::Metrics);
    assert_eq!(app.state(), AppState::Running);
}

#[test]
fn quitting_keys_ask_for_cancellation() {
    for key in [KeyCode::Char('q'), KeyCode::Esc] {
        let mut app = App::new();
        assert!(app.handle_events(press(key)));
        assert_eq!(app.state(), AppState::Quitting);
    }
    let mut app = App::new();
    assert!(app.handle_events(Some(KeyEvent {
        code: KeyCode::Char('c'),
        control: true,
        pressed: true
    })));
    assert_eq!(app.state(), AppState::Quitting);
}

#[test]
fn tick_goes_on_while_running_and_not_cancelled() {
    let app = App::new();
    assert_eq!(app.end_tick(false), TickOutcome::Continue { sleep_millis: 1000 });
    assert_eq!(TICK_MILLIS, 1000);
}

#[test]
fn tick_exits_on_cancellation_or_quit() {
    let mut app = App::new();
    assert_eq!(app.end_tick(true), TickOutcome::Exit);
    app.quit();
    assert_eq!(app.end_tick(false), TickOutcome::Exit);
    assert_eq!(app.end_tick(true), TickOutcome::Exit);
}
